//! Request handlers: account handlers and place handlers.

pub mod auth;
pub mod places;
