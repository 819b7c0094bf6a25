//! What a handler answers: a status code and a body.
//!
//! Replies are plain values. Turning one into bytes on a connection is left to
//! the program that serves them.

use crate::handlers::auth::VerifyAuthResponse;
use crate::handlers::places::PlaceResponse;
use crate::store::StoreError;
use vstd::prelude::*;

verus! {

/// The request was carried out.
pub const OK: u16 = 200;

/// The request was carried out and something was stored.
pub const CREATED: u16 = 201;

/// The request lacks what it needs.
pub const BAD_REQUEST: u16 = 400;

/// The request does not say, or does not prove, who asks.
pub const UNAUTHORIZED: u16 = 401;

/// There is no such thing as the request names.
pub const NOT_FOUND: u16 = 404;

/// The server could not carry the request out.
pub const INTERNAL_SERVER_ERROR: u16 = 500;

/// The body of a reply.
#[derive(Debug, Clone, PartialEq)]
pub enum Body {
    /// Plain text.
    Text(String),
    /// The JSON object `{"message": ..}`.
    Message(String),
    /// The JSON object `{"error": ..}`.
    Error(String),
    /// The JSON object `{"message": .., "token": ..}`.
    Token { message: String, token: String },
    /// The outcome of a token check, as JSON.
    Verify(VerifyAuthResponse),
    /// One place, as JSON.
    Place(PlaceResponse),
    /// A list of places, as a JSON array.
    Places(Vec<PlaceResponse>),
}

/// A reply: status code and body.
#[derive(Debug, Clone, PartialEq)]
pub struct Reply {
    pub status: u16,
    pub body: Body,
}

impl Reply {
    /// The reply is `status` with the plain text `text`.
    pub open spec fn is_text(self, status: u16, text: Seq<char>) -> bool {
        &&& self.status == status
        &&& self.body matches Body::Text(t)
        &&& t@ == text
    }

    /// The reply is `status` with `{"message": message}`.
    pub open spec fn is_message(self, status: u16, message: Seq<char>) -> bool {
        &&& self.status == status
        &&& self.body matches Body::Message(m)
        &&& m@ == message
    }

    /// The reply is `status` with `{"error": error}`.
    pub open spec fn is_error(self, status: u16, error: Seq<char>) -> bool {
        &&& self.status == status
        &&& self.body matches Body::Error(e)
        &&& e@ == error
    }

    /// The reply is `status` with `{"message": message, "token": token}`.
    pub open spec fn is_token(self, status: u16, message: Seq<char>, token: Seq<char>) -> bool {
        &&& self.status == status
        &&& self.body matches Body::Token { message: m, token: t }
        &&& m@ == message
        &&& t@ == token
    }

    /// The reply is `status` with a token check's outcome that says `message`.
    pub open spec fn is_verdict(self, status: u16, message: Seq<char>) -> bool {
        &&& self.status == status
        &&& self.body matches Body::Verify(v)
        &&& v.message@ == message
    }

    pub fn text(status: u16, text: &str) -> (r: Reply)
        ensures
            r.is_text(status, text@),
    {
        Reply { status, body: Body::Text(text.to_owned()) }
    }

    pub fn message(status: u16, message: &str) -> (r: Reply)
        ensures
            r.is_message(status, message@),
    {
        Reply { status, body: Body::Message(message.to_owned()) }
    }

    pub fn error(status: u16, error: &str) -> (r: Reply)
        ensures
            r.is_error(status, error@),
    {
        Reply { status, body: Body::Error(error.to_owned()) }
    }

    pub fn token(status: u16, message: &str, token: String) -> (r: Reply)
        ensures
            r.is_token(status, message@, token@),
    {
        Reply { status, body: Body::Token { message: message.to_owned(), token } }
    }

    pub fn verdict(status: u16, message: &str) -> (r: Reply)
        ensures
            r.is_verdict(status, message@),
    {
        Reply { status, body: Body::Verify(VerifyAuthResponse { message: message.to_owned() }) }
    }
}

/// The reply to a failure of the store: a lost connection is reported as
/// such, anything else with the handler's own short message. No detail of the
/// failure is passed on.
pub open spec fn is_store_failure(reply: Reply, failure: StoreError, what: Seq<char>) -> bool {
    match failure {
        StoreError::Connection => reply.is_text(
            INTERNAL_SERVER_ERROR,
            "Database connection error"@,
        ),
        StoreError::Query => reply.is_text(INTERNAL_SERVER_ERROR, what),
    }
}

/// Answers a failure of the store with status 500.
pub fn store_failure(failure: StoreError, what: &str) -> (reply: Reply)
    ensures
        is_store_failure(reply, failure, what@),
{
    match failure {
        StoreError::Connection => Reply::text(INTERNAL_SERVER_ERROR, "Database connection error"),
        StoreError::Query => Reply::text(INTERNAL_SERVER_ERROR, what),
    }
}

} // verus!
