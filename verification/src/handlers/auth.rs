//! Signup, login and the token check.

use crate::http::{
    is_store_failure, store_failure, Reply, BAD_REQUEST, CREATED, INTERNAL_SERVER_ERROR, OK,
    UNAUTHORIZED,
};
use crate::models::{NewUser, User};
use crate::store::StoreError;
use crate::utils::jwt::{
    check_outcome, decode_jwt_at, generate_jwt_at, good_until, hs256_payload, issue_outcome,
    secret_view, unix_now, ClaimsView, TokenError,
};
use crate::utils::password::{
    hash_outcome, hash_password, is_fresh_salt, verify_outcome, verify_password, PasswordError,
};
use vstd::prelude::*;

verus! {

/// What a client sends to sign up.
#[derive(Debug, Clone, PartialEq, Eq)]
pub struct RegisterUser {
    pub first_name: String,
    pub last_name: String,
    pub email: String,
    pub password: String,
}

/// What a client sends to log in.
#[derive(Debug, Clone, PartialEq, Eq)]
pub struct LoginUser {
    pub email: String,
    pub password: String,
}

/// What the token check answers.
#[derive(Debug, Clone, PartialEq, Eq)]
pub struct VerifyAuthResponse {
    pub message: String,
}

/// A hexadecimal digit in lower case.
pub open spec fn is_lower_hex(c: char) -> bool {
    let n = c as u32;
    0x30 <= n <= 0x39 || 0x61 <= n <= 0x66
}

/// The text of a random (version 4) UUID: 36 characters, groups of 8, 4, 4, 4
/// and 12 lower-case hexadecimal digits with hyphens between them, the third
/// group starting with `4` and the fourth with `8`, `9`, `a` or `b`.
pub open spec fn is_uuid_text(s: Seq<char>) -> bool {
    &&& s.len() == 36
    &&& forall|i: int|
        0 <= i < 36 ==> if i == 8 || i == 13 || i == 18 || i == 23 {
            #[trigger] s[i] == '-'
        } else {
            is_lower_hex(s[i])
        }
    &&& s[14] == '4'
    &&& (s[19] == '8' || s[19] == '9' || s[19] == 'a' || s[19] == 'b')
}

/// `uuid::Uuid::new_v4().to_string()`: a random UUID in its hyphenated
/// lower-case form. Which one is left open; the shape, with the version and
/// variant digits, is what the crate sets and documents.
#[verifier::external_body]
fn new_uuid() -> (id: String)
    ensures
        is_uuid_text(id@),
{
    uuid::Uuid::new_v4().to_string()
}

/// The text of an optional string, empty where there is none.
pub open spec fn text_or_empty(text: Option<String>) -> Seq<char> {
    match text {
        Some(t) => t@,
        None => Seq::<char>::empty(),
    }
}

/// `user` is the record of the account that `item` asks for, with the given
/// identifier and password hash: the first name doubles as the short
/// identifier.
pub open spec fn is_user_record(
    user: NewUser,
    item: RegisterUser,
    uuid: Seq<char>,
    password_hash: Seq<char>,
) -> bool {
    &&& user.user_id@ == item.first_name@
    &&& user.uuid_user_id matches Some(id)
    &&& id@ == uuid
    &&& user.first_name@ == item.first_name@
    &&& user.last_name@ == item.last_name@
    &&& user.email@ == item.email@
    &&& user.password@ == password_hash
}

/// The record of the account that `item` asks for. The password in `item` is
/// dropped: the record holds the hash.
pub fn user_record(item: RegisterUser, uuid: String, password_hash: String) -> (user: NewUser)
    ensures
        is_user_record(user, item, uuid@, password_hash@),
{
    NewUser {
        user_id: item.first_name.clone(),
        uuid_user_id: Some(uuid),
        first_name: item.first_name,
        last_name: item.last_name,
        email: item.email,
        password: password_hash,
    }
}

/// What the first step of a signup gives: the record to store, or the reply
/// that ends the request.
pub open spec fn is_signup_step(step: Result<NewUser, Reply>, item: RegisterUser) -> bool {
    match step {
        Ok(user) => {
            &&& user.uuid_user_id matches Some(id)
            &&& is_uuid_text(id@)
            &&& is_user_record(user, item, id@, user.password@)
            &&& exists|salt: Seq<char>|
                is_fresh_salt(salt) && #[trigger] hash_outcome(item.password@, salt) == Ok::<
                    Seq<char>,
                    PasswordError,
                >(user.password@)
            &&& verify_outcome(item.password@, user.password@) == Ok::<bool, PasswordError>(true)
        },
        Err(reply) => {
            &&& reply.is_text(INTERNAL_SERVER_ERROR, "Error creating user"@)
            &&& exists|salt: Seq<char>|
                is_fresh_salt(salt) && (#[trigger] hash_outcome(item.password@, salt)) is Err
        },
    }
}

/// First step of a signup: a fresh identifier, the password hashed with a
/// fresh salt, and the record to store.
///
/// The record holds the client's names and email unchanged, a random UUID, and
/// a hash that `verify_password` accepts for the client's password. Where the
/// hasher refuses the password the request ends with 500.
pub fn prepare_user(item: RegisterUser) -> (step: Result<NewUser, Reply>)
    ensures
        is_signup_step(step, item),
{
    let uuid = new_uuid();
    match hash_password(item.password.as_str()) {
        Ok(password_hash) => Ok(user_record(item, uuid, password_hash)),
        Err(_) => Err(Reply::text(INTERNAL_SERVER_ERROR, "Error creating user")),
    }
}

/// What a signup answers once the store has been asked to keep `user`, where
/// the token is issued at `now`.
pub open spec fn is_signup_reply(
    reply: Reply,
    user: NewUser,
    inserted: Result<usize, StoreError>,
    secret: Option<Seq<char>>,
    ttl: int,
    now: int,
) -> bool {
    match inserted {
        Ok(_) => match issue_outcome(
            text_or_empty(user.uuid_user_id),
            user.first_name@,
            secret,
            ttl,
            now,
        ) {
            Ok(token) => {
                &&& reply.is_token(CREATED, "User created successfully"@, token)
                &&& secret matches Some(key)
                &&& good_until(
                    token,
                    key,
                    text_or_empty(user.uuid_user_id),
                    user.first_name@,
                    now + ttl,
                )
            },
            Err(_) => reply.is_text(INTERNAL_SERVER_ERROR, "Error generating JWT"@),
        },
        Err(failure) => is_store_failure(reply, failure, "Error creating user"@),
    }
}

/// Second step of a signup, at the instant `now`: the reply, from what the
/// store answered to the insert.
///
/// 201 with a token for the new user's UUID where the store took the record
/// and a token could be signed; 500 where the store refused or no token could
/// be signed. The token is good until `now + ttl_seconds`: checked with the
/// same secret before that instant it gives the user's claims.
pub fn register_user_at(
    user: &NewUser,
    inserted: Result<usize, StoreError>,
    secret: Option<&str>,
    ttl_seconds: u64,
    now: i64,
) -> (reply: Reply)
    ensures
        is_signup_reply(
            reply,
            *user,
            inserted,
            secret_view(secret),
            ttl_seconds as int,
            now as int,
        ),
{
    match inserted {
        Ok(_) => {
            let subject = match &user.uuid_user_id {
                Some(id) => id.clone(),
                None => String::new(),
            };
            match generate_jwt_at(
                subject.as_str(),
                user.first_name.as_str(),
                secret,
                ttl_seconds,
                now,
            ) {
                Ok(token) => Reply::token(CREATED, "User created successfully", token),
                Err(_) => Reply::text(INTERNAL_SERVER_ERROR, "Error generating JWT"),
            }
        },
        Err(failure) => store_failure(failure, "Error creating user"),
    }
}

/// Second step of a signup, now. The clock is read once; the reply is what
/// `register_user_at` gives for that reading.
pub fn register_user(
    user: &NewUser,
    inserted: Result<usize, StoreError>,
    secret: Option<&str>,
    ttl_seconds: u64,
) -> (reply: Reply)
    ensures
        exists|now: i64| #[trigger]
            is_signup_reply(
                reply,
                *user,
                inserted,
                secret_view(secret),
                ttl_seconds as int,
                now as int,
            ),
{
    let now = unix_now();
    register_user_at(user, inserted, secret, ttl_seconds, now)
}

/// What a login answers, from what the store found for the email, where the
/// token is issued at `now`.
pub open spec fn is_login_reply(
    reply: Reply,
    password: Seq<char>,
    found: Result<Option<User>, StoreError>,
    secret: Option<Seq<char>>,
    ttl: int,
    now: int,
) -> bool {
    match found {
        Ok(Some(user)) => match user.password {
            Some(stored) => match verify_outcome(password, stored@) {
                Ok(true) => match issue_outcome(
                    text_or_empty(user.uuid_user_id),
                    text_or_empty(user.first_name),
                    secret,
                    ttl,
                    now,
                ) {
                    Ok(token) => {
                        &&& reply.is_token(OK, "Login successful"@, token)
                        &&& secret matches Some(key)
                        &&& good_until(
                            token,
                            key,
                            text_or_empty(user.uuid_user_id),
                            text_or_empty(user.first_name),
                            now + ttl,
                        )
                    },
                    Err(_) => reply.is_text(INTERNAL_SERVER_ERROR, "Error generating JWT"@),
                },
                Ok(false) => reply.is_text(UNAUTHORIZED, "Invalid credentials"@),
                Err(_) => reply.is_text(INTERNAL_SERVER_ERROR, "Error verifying password"@),
            },
            None => reply.is_text(UNAUTHORIZED, "Invalid credentials"@),
        },
        Ok(None) => reply.is_text(UNAUTHORIZED, "Invalid credentials"@),
        Err(failure) => is_store_failure(reply, failure, "Failed to fetch user"@),
    }
}

/// The reply to a login whose password was accepted: the token, or 500.
fn login_token_reply(issued: Result<String, TokenError>) -> (reply: Reply)
    ensures
        match issued {
            Ok(token) => reply.is_token(OK, "Login successful"@, token@),
            Err(_) => reply.is_text(INTERNAL_SERVER_ERROR, "Error generating JWT"@),
        },
{
    match issued {
        Ok(token) => Reply::token(OK, "Login successful", token),
        Err(_) => Reply::text(INTERNAL_SERVER_ERROR, "Error generating JWT"),
    }
}

/// Answers a login at the instant `now`, from what the store found for the
/// email.
///
/// 401 with `Invalid credentials` where there is no such user, where the user
/// has no password, or where the password is not accepted for the stored hash:
/// the reply does not say which. 500 where the store failed, where the stored
/// hash cannot be read, or where no token could be signed. Otherwise 200 with
/// a token for the user's UUID and first name, good until `now + ttl_seconds`.
pub fn login_user_at(
    item: &LoginUser,
    found: Result<Option<User>, StoreError>,
    secret: Option<&str>,
    ttl_seconds: u64,
    now: i64,
) -> (reply: Reply)
    ensures
        is_login_reply(
            reply,
            item.password@,
            found,
            secret_view(secret),
            ttl_seconds as int,
            now as int,
        ),
{
    match &found {
        Ok(Some(user)) => match &user.password {
            Some(stored) => match verify_password(item.password.as_str(), stored.as_str()) {
                Ok(true) => {
                    let subject = match &user.uuid_user_id {
                        Some(id) => id.clone(),
                        None => String::new(),
                    };
                    let first_name = match &user.first_name {
                        Some(name) => name.clone(),
                        None => String::new(),
                    };
                    login_token_reply(
                        generate_jwt_at(
                            subject.as_str(),
                            first_name.as_str(),
                            secret,
                            ttl_seconds,
                            now,
                        ),
                    )
                },
                Ok(false) => Reply::text(UNAUTHORIZED, "Invalid credentials"),
                Err(_) => Reply::text(INTERNAL_SERVER_ERROR, "Error verifying password"),
            },
            None => Reply::text(UNAUTHORIZED, "Invalid credentials"),
        },
        Ok(None) => Reply::text(UNAUTHORIZED, "Invalid credentials"),
        Err(failure) => store_failure(*failure, "Failed to fetch user"),
    }
}

/// Answers a login now. The clock is read once; the reply is what
/// `login_user_at` gives for that reading.
pub fn login_user(
    item: &LoginUser,
    found: Result<Option<User>, StoreError>,
    secret: Option<&str>,
    ttl_seconds: u64,
) -> (reply: Reply)
    ensures
        exists|now: i64| #[trigger]
            is_login_reply(
                reply,
                item.password@,
                found,
                secret_view(secret),
                ttl_seconds as int,
                now as int,
            ),
{
    let now = unix_now();
    login_user_at(item, found, secret, ttl_seconds, now)
}

/// What the token check answers, from the token handed in and from what
/// checking it gave.
pub open spec fn is_verify_reply(
    reply: Reply,
    token: Seq<char>,
    checked: Result<ClaimsView, TokenError>,
) -> bool {
    if token.len() == 0 {
        reply.is_verdict(BAD_REQUEST, "No token provided"@)
    } else {
        match checked {
            Ok(_) => reply.is_verdict(OK, "Token valid"@),
            Err(_) => reply.is_verdict(UNAUTHORIZED, "Invalid token"@),
        }
    }
}

/// Answers a token check at the instant `now`.
///
/// 400 with `No token provided` where no token or an empty one was handed in;
/// 200 with `Token valid` where the token is signed by this secret and has not
/// expired; 401 with `Invalid token` otherwise, without a word on whether the
/// signature or the age was at fault.
pub fn verify_auth_at(auth_header: Option<String>, secret: &str, now: i64) -> (reply: Reply)
    ensures
        is_verify_reply(
            reply,
            text_or_empty(auth_header),
            check_outcome(hs256_payload(text_or_empty(auth_header), secret@), now as int),
        ),
{
    let token = match auth_header {
        Some(value) => value,
        None => String::new(),
    };
    if token.as_str().is_empty() {
        return Reply::verdict(BAD_REQUEST, "No token provided");
    }
    match decode_jwt_at(token.as_str(), secret, now) {
        Ok(_) => Reply::verdict(OK, "Token valid"),
        Err(_) => Reply::verdict(UNAUTHORIZED, "Invalid token"),
    }
}

/// Answers a token check now. The clock is read once; the reply is what
/// `verify_auth_at` gives for that reading.
pub fn verify_auth(auth_header: Option<String>, secret: &str) -> (reply: Reply)
    ensures
        exists|now: i64|
            is_verify_reply(
                reply,
                text_or_empty(auth_header),
                #[trigger] check_outcome(
                    hs256_payload(text_or_empty(auth_header), secret@),
                    now as int,
                ),
            ),
{
    let now = unix_now();
    verify_auth_at(auth_header, secret, now)
}

} // verus!
