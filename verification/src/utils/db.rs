//! Setting up the pool of database connections: what is decided, without the
//! connecting itself.
//!
//! The pool is built at startup. Building it is tried a fixed number of times
//! with a fixed pause after each failure; the program that owns the pool makes
//! the attempts and sleeps, and asks here what to do after each.

use vstd::prelude::*;

verus! {

/// How many connections the pool holds at most.
pub const POOL_SIZE: u32 = 15;

/// How often building the pool is tried.
pub const MAX_ATTEMPTS: u32 = 5;

/// The pause after a failed attempt, in seconds.
pub const RETRY_DELAY_SECONDS: u64 = 5;

/// Why the configuration cannot be used.
#[derive(Debug, Clone, Copy, PartialEq, Eq)]
pub enum ConfigError {
    /// No database URL is set.
    MissingDatabaseUrl,
    /// The database URL is set and empty.
    EmptyDatabaseUrl,
}

/// What to do after an attempt to build the pool.
#[derive(Debug, Clone, Copy, PartialEq, Eq)]
pub enum PoolStep {
    /// The pool stands.
    Ready,
    /// Pause, then make the attempt with the given number.
    Retry { wait_seconds: u64, attempt: u32 },
    /// Pause, then give up: every attempt failed.
    GiveUp { wait_seconds: u64 },
}

/// What checking the configured database URL gives.
pub open spec fn url_outcome(value: Option<String>) -> Result<String, ConfigError> {
    match value {
        Some(url) => if url@.len() == 0 {
            Err(ConfigError::EmptyDatabaseUrl)
        } else {
            Ok(url)
        },
        None => Err(ConfigError::MissingDatabaseUrl),
    }
}

/// Checks the configured database URL: it must be set and not empty.
pub fn database_url(value: Option<String>) -> (r: Result<String, ConfigError>)
    ensures
        r == url_outcome(value),
{
    match value {
        Some(url) => if url.as_str().is_empty() {
            Err(ConfigError::EmptyDatabaseUrl)
        } else {
            Ok(url)
        },
        None => Err(ConfigError::MissingDatabaseUrl),
    }
}

/// What follows the attempt with the number `attempt`.
pub open spec fn step_after(attempt: u32, built: bool) -> PoolStep {
    if built {
        PoolStep::Ready
    } else if attempt < MAX_ATTEMPTS {
        PoolStep::Retry { wait_seconds: RETRY_DELAY_SECONDS, attempt: (attempt + 1) as u32 }
    } else {
        PoolStep::GiveUp { wait_seconds: RETRY_DELAY_SECONDS }
    }
}

/// Decides what follows the attempt with the number `attempt`, counted from
/// 1, given whether it built the pool.
///
/// A built pool ends the setup. A failure is followed by a pause and, while
/// attempts are left, by the next attempt; after the last one, by giving up.
pub fn after_attempt(attempt: u32, built: bool) -> (step: PoolStep)
    ensures
        step == step_after(attempt, built),
{
    if built {
        PoolStep::Ready
    } else if attempt < MAX_ATTEMPTS {
        PoolStep::Retry { wait_seconds: RETRY_DELAY_SECONDS, attempt: attempt + 1 }
    } else {
        PoolStep::GiveUp { wait_seconds: RETRY_DELAY_SECONDS }
    }
}

} // verus!
