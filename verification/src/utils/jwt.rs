//! Bearer tokens: signed, self-contained, and valid until an expiry.
//!
//! A token is a JSON Web Token signed with HMAC-SHA256 under a secret that only
//! the server knows. Its claims name the user (`sub`), carry a display name
//! (`first_name`) and give the instant, in seconds since 1970-01-01 UTC, from
//! which the token is no longer valid (`exp`).
//!
//! Signing and signature checking are `jsonwebtoken`'s. The expiry rule is
//! decided here, against a clock reading that the caller can pass in: a token
//! is valid at `now` exactly when `now < exp`.

use crate::models::text_view;
use vstd::prelude::*;

verus! {

/// `jsonwebtoken::errors::Error`: why the crate refused to sign or to decode.
#[verifier::external_type_specification]
#[verifier::external_body]
pub struct ExJwtError(jsonwebtoken::errors::Error);

/// What a token says.
#[derive(Debug, Clone, PartialEq, Eq)]
pub struct Claims {
    /// The user the token speaks for.
    pub sub: String,
    /// The user's display name.
    pub first_name: String,
    /// The first second at which the token is no longer valid.
    pub exp: usize,
}

/// The claims as mathematical values.
pub struct ClaimsView {
    pub sub: Seq<char>,
    pub first_name: Seq<char>,
    pub exp: int,
}

impl View for Claims {
    type V = ClaimsView;

    open spec fn view(&self) -> ClaimsView {
        ClaimsView { sub: self.sub@, first_name: self.first_name@, exp: self.exp as int }
    }
}

/// Why no token was issued, or why one was turned down.
#[derive(Debug, Clone, Copy, PartialEq, Eq)]
pub enum TokenError {
    /// No token could be signed: there is no secret, the expiry cannot be
    /// written down, or the signer refused.
    Signing,
    /// The token is not one that this secret signed, or its claims are not
    /// those of this service.
    InvalidSignature,
    /// The token was signed by this secret and its time is over.
    Expired,
}

/// The time a token lives where nothing else is asked for: one day.
pub const DEFAULT_TTL_SECONDS: u64 = 86_400;

/// One member of a decoded claims object: its name, its text where it is a
/// JSON string, its value where it is a JSON number that is a `u64`.
#[derive(Debug, Clone, PartialEq, Eq)]
pub struct ClaimEntry {
    pub name: String,
    pub text: Option<String>,
    pub number: Option<u64>,
}

/// A claims member as mathematical values: name, text, number.
pub type EntryView = (Seq<char>, Option<Seq<char>>, Option<u64>);

/// A claims member as mathematical values.
pub open spec fn entry_view(entry: ClaimEntry) -> EntryView {
    (entry.name@, text_view(entry.text), entry.number)
}

/// The members of a claims object as mathematical values, in their order.
pub open spec fn entries_view(entries: Seq<ClaimEntry>) -> Seq<EntryView> {
    entries.map_values(|e: ClaimEntry| entry_view(e))
}

/// The token that `jsonwebtoken::encode` makes of the default header (HS256),
/// of the claims object with the members `sub`, `first_name` and `exp`, and of
/// `secret`'s bytes as the key; `None` where it returns an error.
pub uninterp spec fn hs256_token(
    sub: Seq<char>,
    first_name: Seq<char>,
    exp: u64,
    secret: Seq<char>,
) -> Option<Seq<char>>;

/// The members of the claims object that `jsonwebtoken::decode` finds in
/// `token` when it checks the signature with `secret`'s bytes as the key,
/// accepts HS256 only, asks for an `exp` member and does not compare it with
/// the clock; `None` where it returns an error.
pub uninterp spec fn hs256_payload(token: Seq<char>, secret: Seq<char>) -> Option<Seq<EntryView>>;

/// `i` is the place of the first member called `name`.
pub open spec fn first_named(entries: Seq<EntryView>, name: Seq<char>, i: int) -> bool {
    &&& 0 <= i < entries.len()
    &&& entries[i].0 == name
    &&& forall|j: int| 0 <= j < i ==> (#[trigger] entries[j]).0 != name
}

/// The first member called `name`.
pub open spec fn find_entry(entries: Seq<EntryView>, name: Seq<char>) -> Option<EntryView> {
    if exists|i: int| first_named(entries, name, i) {
        Some(entries[choose|i: int| first_named(entries, name, i)])
    } else {
        None
    }
}

/// The text of the member called `name`, where there is one and it is text.
pub open spec fn text_claim(entries: Seq<EntryView>, name: Seq<char>) -> Option<Seq<char>> {
    match find_entry(entries, name) {
        Some(entry) => entry.1,
        None => None,
    }
}

/// The number of the member called `name`, where there is one and it is a
/// number.
pub open spec fn number_claim(entries: Seq<EntryView>, name: Seq<char>) -> Option<u64> {
    match find_entry(entries, name) {
        Some(entry) => entry.2,
        None => None,
    }
}

/// The claims that a decoded claims object holds: `sub` and `first_name` as
/// text and `exp` as a number that fits a `usize`. Other members are ignored.
pub open spec fn claims_in(entries: Seq<EntryView>) -> Option<ClaimsView> {
    match (
        text_claim(entries, "sub"@),
        text_claim(entries, "first_name"@),
        number_claim(entries, "exp"@),
    ) {
        (Some(sub), Some(first_name), Some(exp)) => if exp <= usize::MAX {
            Some(ClaimsView { sub, first_name, exp: exp as int })
        } else {
            None
        },
        _ => None,
    }
}

/// The expiry of a token issued at `now` to live `ttl` seconds, where that
/// instant can be written in a claim.
pub open spec fn expiry(now: int, ttl: int) -> Option<usize> {
    if 0 <= now + ttl <= usize::MAX {
        Some((now + ttl) as usize)
    } else {
        None
    }
}

/// Whether claims that expire at `exp` are still good at `now`.
pub open spec fn live_at(exp: int, now: int) -> bool {
    now < exp
}

/// What issuing a token at `now` gives.
pub open spec fn issue_outcome(
    user_id: Seq<char>,
    first_name: Seq<char>,
    secret: Option<Seq<char>>,
    ttl: int,
    now: int,
) -> Result<Seq<char>, TokenError> {
    match (secret, expiry(now, ttl)) {
        (Some(key), Some(exp)) => match hs256_token(user_id, first_name, exp as u64, key) {
            Some(token) => Ok(token),
            None => Err(TokenError::Signing),
        },
        _ => Err(TokenError::Signing),
    }
}

/// What checking a token at `now` gives, from what the decoder found in it.
pub open spec fn check_outcome(payload: Option<Seq<EntryView>>, now: int) -> Result<
    ClaimsView,
    TokenError,
> {
    match payload {
        Some(entries) => match claims_in(entries) {
            Some(claims) => if live_at(claims.exp, now) {
                Ok(claims)
            } else {
                Err(TokenError::Expired)
            },
            None => Err(TokenError::InvalidSignature),
        },
        None => Err(TokenError::InvalidSignature),
    }
}

/// What checking a token at `at` gives when the token holds the claims of
/// `user_id` and `first_name` and expires at `exp`.
pub open spec fn lifetime_outcome(
    user_id: Seq<char>,
    first_name: Seq<char>,
    exp: int,
    at: int,
) -> Result<ClaimsView, TokenError> {
    if live_at(exp, at) {
        Ok(ClaimsView { sub: user_id, first_name, exp })
    } else {
        Err(TokenError::Expired)
    }
}

/// `token` is good for `user_id` and `first_name` until `exp`: checked with
/// `secret` it gives their claims at every instant before `exp`, and is
/// expired from `exp` on.
pub open spec fn good_until(
    token: Seq<char>,
    secret: Seq<char>,
    user_id: Seq<char>,
    first_name: Seq<char>,
    exp: int,
) -> bool {
    &&& token.len() > 0
    &&& forall|at: int| #[trigger]
        check_outcome(hs256_payload(token, secret), at) == lifetime_outcome(
            user_id,
            first_name,
            exp,
            at,
        )
}

/// The outcome of issuing a token, with the token as its characters.
pub open spec fn token_result_view(r: Result<String, TokenError>) -> Result<Seq<char>, TokenError> {
    match r {
        Ok(token) => Ok(token@),
        Err(e) => Err(e),
    }
}

/// The outcome of checking a token, with the claims as mathematical values.
pub open spec fn claims_result_view(r: Result<Claims, TokenError>) -> Result<
    ClaimsView,
    TokenError,
> {
    match r {
        Ok(claims) => Ok(claims@),
        Err(e) => Err(e),
    }
}

/// The characters of the secret, where there is one.
pub open spec fn secret_view(secret: Option<&str>) -> Option<Seq<char>> {
    match secret {
        Some(key) => Some(key@),
        None => None,
    }
}

/// The clock: `chrono::Utc::now().timestamp()`, the seconds since 1970-01-01
/// 00:00:00 UTC. Nothing is promised of a clock.
#[verifier::external_body]
pub(crate) fn unix_now() -> (now: i64) {
    chrono::Utc::now().timestamp()
}

/// What the decoder finds in a token that was signed over the three claims:
/// a claims object that holds them under their names.
pub open spec fn opens_to(
    payload: Option<Seq<EntryView>>,
    sub: Seq<char>,
    first_name: Seq<char>,
    exp: u64,
) -> bool {
    &&& payload matches Some(entries)
    &&& text_claim(entries, "sub"@) == Some(sub)
    &&& text_claim(entries, "first_name"@) == Some(first_name)
    &&& number_claim(entries, "exp"@) == Some(exp)
}

/// `jsonwebtoken::encode` with `Header::default()`, a JSON object of the three
/// claims, and `EncodingKey::from_secret` of the secret's bytes.
///
/// The result is a function of the four arguments, which `hs256_token` names.
/// Two things are believed of the token that comes out: it is not empty, for
/// it holds two dots; and `jsonwebtoken::decode`, called as `open_hs256` calls
/// it and with the same secret, accepts it and finds the three claims that
/// went in.
#[verifier::external_body]
fn sign_hs256(sub: &str, first_name: &str, exp: u64, secret: &str) -> (r: Result<
    String,
    jsonwebtoken::errors::Error,
>)
    ensures
        r matches Ok(token) ==> hs256_token(sub@, first_name@, exp, secret@) == Some(token@),
        r matches Ok(token) ==> token@.len() > 0,
        r matches Ok(token) ==> opens_to(hs256_payload(token@, secret@), sub@, first_name@, exp),
        r is Err ==> hs256_token(sub@, first_name@, exp, secret@) is None,
{
    let mut claims = serde_json::Map::new();
    claims.insert("sub".to_owned(), serde_json::Value::from(sub));
    claims.insert("first_name".to_owned(), serde_json::Value::from(first_name));
    claims.insert("exp".to_owned(), serde_json::Value::from(exp));
    let key = jsonwebtoken::EncodingKey::from_secret(secret.as_bytes());
    jsonwebtoken::encode(&jsonwebtoken::Header::default(), &claims, &key)
}

/// `jsonwebtoken::decode` into a JSON object, with `Validation::default()`
/// (HS256 only, `exp` required) but for `validate_exp`, which is off, and
/// `DecodingKey::from_secret` of the secret's bytes. Each member of the object
/// is handed on with its name, with its text where it is a string and with its
/// value where it is a number that `as_u64` gives.
///
/// With the comparison against the clock switched off the result is a function
/// of the two arguments, which `hs256_payload` names.
#[verifier::external_body]
fn open_hs256(token: &str, secret: &str) -> (r: Result<
    Vec<ClaimEntry>,
    jsonwebtoken::errors::Error,
>)
    ensures
        r matches Ok(entries) ==> hs256_payload(token@, secret@) == Some(entries_view(entries@)),
        r is Err ==> hs256_payload(token@, secret@) is None,
{
    let mut rules = jsonwebtoken::Validation::default();
    rules.validate_exp = false;
    let key = jsonwebtoken::DecodingKey::from_secret(secret.as_bytes());
    let object =
        jsonwebtoken::decode::<serde_json::Map<String, serde_json::Value>>(token, &key, &rules)?
            .claims;
    Ok(object.into_iter().map(|(name, value)| match value {
        serde_json::Value::String(s) => ClaimEntry { name, text: Some(s), number: None },
        serde_json::Value::Number(n) => ClaimEntry { name, text: None, number: n.as_u64() },
        _ => ClaimEntry { name, text: None, number: None },
    }).collect())
}

/// Where the first member called `name` stands.
fn entry_position(entries: &Vec<ClaimEntry>, name: &str) -> (r: Option<usize>)
    ensures
        match r {
            Some(i) => first_named(entries_view(entries@), name@, i as int),
            None => forall|i: int| !first_named(entries_view(entries@), name@, i),
        },
{
    let wanted = name.to_owned();
    let mut i: usize = 0;
    while i < entries.len()
        invariant
            i <= entries.len(),
            wanted@ == name@,
            forall|j: int| 0 <= j < i ==> (#[trigger] entries_view(entries@)[j]).0 != name@,
        decreases entries.len() - i,
    {
        if entries[i].name == wanted {
            return Some(i);
        }
        i = i + 1;
    }
    None
}

/// Any two places of the first member called `name` are one place.
proof fn first_named_is_one(entries: Seq<EntryView>, name: Seq<char>, i: int, k: int)
    requires
        first_named(entries, name, i),
        first_named(entries, name, k),
    ensures
        i == k,
{
    if i < k {
        assert(entries[i].0 != name);
    } else if k < i {
        assert(entries[k].0 != name);
    }
}

/// The text of the member called `name`.
fn text_of(entries: &Vec<ClaimEntry>, name: &str) -> (r: Option<String>)
    ensures
        text_view(r) == text_claim(entries_view(entries@), name@),
{
    match entry_position(entries, name) {
        Some(i) => {
            proof {
                let k = choose|k: int| first_named(entries_view(entries@), name@, k);
                first_named_is_one(entries_view(entries@), name@, i as int, k);
            }
            match &entries[i].text {
                Some(t) => Some(t.clone()),
                None => None,
            }
        },
        None => None,
    }
}

/// The number of the member called `name`.
fn number_of(entries: &Vec<ClaimEntry>, name: &str) -> (r: Option<u64>)
    ensures
        r == number_claim(entries_view(entries@), name@),
{
    match entry_position(entries, name) {
        Some(i) => {
            proof {
                let k = choose|k: int| first_named(entries_view(entries@), name@, k);
                first_named_is_one(entries_view(entries@), name@, i as int, k);
            }
            entries[i].number
        },
        None => None,
    }
}

/// Optional claims as mathematical values.
pub open spec fn claims_option_view(claims: Option<Claims>) -> Option<ClaimsView> {
    match claims {
        Some(c) => Some(c@),
        None => None,
    }
}

/// Reads the claims of this service out of a decoded claims object.
///
/// There are claims exactly when the object has `sub` and `first_name` as
/// strings and `exp` as a whole number from 0 to `usize::MAX`.
pub fn claims_from_entries(entries: &Vec<ClaimEntry>) -> (r: Option<Claims>)
    ensures
        claims_option_view(r) == claims_in(entries_view(entries@)),
{
    let sub = text_of(entries, "sub");
    let first_name = text_of(entries, "first_name");
    let exp = number_of(entries, "exp");
    match (sub, first_name, exp) {
        (Some(sub), Some(first_name), Some(exp)) => {
            if exp <= usize::MAX as u64 {
                Some(Claims { sub, first_name, exp: exp as usize })
            } else {
                None
            }
        },
        _ => None,
    }
}

/// The expiry of a token issued at `now` to live `ttl_seconds`.
pub fn expiry_after(now: i64, ttl_seconds: u64) -> (r: Option<usize>)
    ensures
        r == expiry(now as int, ttl_seconds as int),
{
    let end: i128 = now as i128 + ttl_seconds as i128;
    if 0 <= end && end <= usize::MAX as i128 {
        Some(end as usize)
    } else {
        None
    }
}

/// Issues a token for `user_id` at the instant `now`, to expire `ttl_seconds`
/// later.
///
/// Fails with `Signing` when there is no secret, when the expiry lies before
/// 1970 or beyond what a `usize` holds, or when the signer refuses; otherwise
/// the token is the one that the signer makes of the two names, the expiry and
/// the secret.
///
/// A token that comes out is good until its expiry: `decode_jwt_at` with the
/// same secret returns the claims it was issued for at every instant before
/// `now + ttl_seconds`, so at `now` itself whenever `ttl_seconds > 0`, and
/// `Expired` from `now + ttl_seconds` on.
pub fn generate_jwt_at(
    user_id: &str,
    first_name: &str,
    secret: Option<&str>,
    ttl_seconds: u64,
    now: i64,
) -> (r: Result<String, TokenError>)
    ensures
        token_result_view(r) == issue_outcome(
            user_id@,
            first_name@,
            secret_view(secret),
            ttl_seconds as int,
            now as int,
        ),
        r matches Ok(token) ==> secret matches Some(key) && good_until(
            token@,
            key@,
            user_id@,
            first_name@,
            now + ttl_seconds,
        ),
{
    match (secret, expiry_after(now, ttl_seconds)) {
        (Some(key), Some(exp)) => {
            match sign_hs256(user_id, first_name, exp as u64, key) {
                Ok(token) => Ok(token),
                Err(_) => Err(TokenError::Signing),
            }
        },
        _ => Err(TokenError::Signing),
    }
}

/// Issues a token for `user_id` now, to expire `ttl_seconds` from now.
///
/// The clock is read once; the result is what `generate_jwt_at` gives for that
/// reading. Without a secret the result is `Signing`.
pub fn generate_jwt(user_id: &str, first_name: &str, secret: Option<&str>, ttl_seconds: u64) -> (r:
    Result<String, TokenError>)
    ensures
        exists|now: i64|
            {
                &&& token_result_view(r) == #[trigger] issue_outcome(
                    user_id@,
                    first_name@,
                    secret_view(secret),
                    ttl_seconds as int,
                    now as int,
                )
                &&& r matches Ok(token) ==> secret matches Some(key) && good_until(
                    token@,
                    key@,
                    user_id@,
                    first_name@,
                    now + ttl_seconds,
                )
            },
        secret is None ==> r == Err::<String, TokenError>(TokenError::Signing),
{
    let now = unix_now();
    generate_jwt_at(user_id, first_name, secret, ttl_seconds, now)
}

/// Checks a token at the instant `now` and returns its claims.
///
/// `InvalidSignature` where the decoder turns the token down with this secret
/// or where its claims are not those of this service; `Expired` where the
/// claims are in order and `exp <= now`; the claims otherwise.
pub fn decode_jwt_at(token: &str, secret: &str, now: i64) -> (r: Result<Claims, TokenError>)
    ensures
        claims_result_view(r) == check_outcome(hs256_payload(token@, secret@), now as int),
{
    match open_hs256(token, secret) {
        Ok(entries) => {
            match claims_from_entries(&entries) {
                Some(claims) => {
                    if now < 0 || (now as u64) < claims.exp as u64 {
                        Ok(claims)
                    } else {
                        Err(TokenError::Expired)
                    }
                },
                None => Err(TokenError::InvalidSignature),
            }
        },
        Err(_) => Err(TokenError::InvalidSignature),
    }
}

/// Checks a token now and returns its claims.
///
/// The clock is read once; the result is what `decode_jwt_at` gives for that
/// reading. A token that the decoder turns down is `InvalidSignature` whatever
/// the clock says.
pub fn decode_jwt(token: &str, secret: &str) -> (r: Result<Claims, TokenError>)
    ensures
        exists|now: i64|
            claims_result_view(r) == #[trigger] check_outcome(
                hs256_payload(token@, secret@),
                now as int,
            ),
        hs256_payload(token@, secret@) is None ==> r == Err::<Claims, TokenError>(
            TokenError::InvalidSignature,
        ),
{
    let now = unix_now();
    decode_jwt_at(token, secret, now)
}

/// A token lives as long as it was issued for, and no longer: issued at `now`
/// to live `ttl > 0` seconds, it is accepted at `now`, with the claims it was
/// issued for, and at every instant before `now + ttl`; from `now + ttl` on
/// it is expired.
pub proof fn law_token_lives_for_its_ttl(
    user_id: Seq<char>,
    first_name: Seq<char>,
    now: int,
    ttl: int,
    at: int,
)
    requires
        ttl > 0,
    ensures
        lifetime_outcome(user_id, first_name, now + ttl, now) == Ok::<ClaimsView, TokenError>(
            ClaimsView { sub: user_id, first_name, exp: now + ttl },
        ),
        at < now + ttl ==> lifetime_outcome(user_id, first_name, now + ttl, at) is Ok,
        at >= now + ttl ==> lifetime_outcome(user_id, first_name, now + ttl, at) == Err::<
            ClaimsView,
            TokenError,
        >(TokenError::Expired),
{
}

} // verus!
