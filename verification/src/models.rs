//! The records that the store keeps and the records that are handed to it.

use bigdecimal::BigDecimal;
use vstd::prelude::*;

verus! {

/// `bigdecimal::BigDecimal`, an exact decimal number. The library never looks
/// inside one: it carries coordinates from a request to the store and back.
#[verifier::external_type_specification]
#[verifier::external_body]
pub struct ExBigDecimal(bigdecimal::BigDecimal);

/// `BigDecimal::clone`: the copy is the same decimal, digits and scale alike.
pub assume_specification[ <bigdecimal::BigDecimal as Clone>::clone ](d: &BigDecimal) -> (r:
    BigDecimal)
    ensures
        r == *d,
;

/// A point in time, in UTC: whole seconds since 1970-01-01 00:00:00 and the
/// nanoseconds into that second.
#[derive(Debug, Clone, Copy, PartialEq, Eq)]
pub struct Timestamp {
    pub secs: i64,
    pub nanos: u32,
}

/// The text that `chrono` writes for the date and time that `secs` seconds
/// and `nanos` nanoseconds after 1970-01-01 00:00:00 stand for, such as
/// `2015-09-05 23:56:04`; `None` where `chrono` has no such date and time.
pub uninterp spec fn datetime_text(secs: i64, nanos: u32) -> Option<Seq<char>>;

/// `chrono::DateTime::from_timestamp`, then `naive_utc` and the `Display` of
/// the `NaiveDateTime`. No time zone and no locale enter into it: the result is
/// a function of the two numbers, which `datetime_text` names.
#[verifier::external_body]
fn datetime_string(secs: i64, nanos: u32) -> (r: Option<String>)
    ensures
        r matches Some(text) ==> datetime_text(secs, nanos) == Some(text@),
        r is None ==> datetime_text(secs, nanos) is None,
{
    chrono::DateTime::from_timestamp(secs, nanos).map(|t| t.naive_utc().to_string())
}

/// The text of an optional string.
pub open spec fn text_view(text: Option<String>) -> Option<Seq<char>> {
    match text {
        Some(t) => Some(t@),
        None => None,
    }
}

/// A copy of an optional string.
pub fn copy_text(text: &Option<String>) -> (r: Option<String>)
    ensures
        r == *text,
{
    match text {
        Some(t) => Some(t.clone()),
        None => None,
    }
}

impl Timestamp {
    /// The instant as text, date then time of day.
    pub open spec fn spec_text(self) -> Option<Seq<char>> {
        datetime_text(self.secs, self.nanos)
    }

    /// Writes the instant as date and time of day, as `2015-09-05 23:56:04`,
    /// with the fraction of the second where there is one. `None` where the
    /// instant lies outside the years that can be written, or where the
    /// nanoseconds are more than a second holds.
    pub fn text(&self) -> (r: Option<String>)
        ensures
            text_view(r) == self.spec_text(),
    {
        datetime_string(self.secs, self.nanos)
    }
}

/// A stored user.
#[derive(Debug, Clone, PartialEq)]
pub struct User {
    pub user_id: String,
    pub uuid_user_id: Option<String>,
    pub first_name: Option<String>,
    pub last_name: Option<String>,
    pub email: Option<String>,
    /// The password hash, never the password.
    pub password: Option<String>,
    pub created_at: Option<Timestamp>,
}

/// A user to be stored.
#[derive(Debug, Clone, PartialEq)]
pub struct NewUser {
    pub user_id: String,
    pub uuid_user_id: Option<String>,
    pub first_name: String,
    pub last_name: String,
    pub email: String,
    /// The password hash, never the password.
    pub password: String,
}

/// A stored place.
#[derive(Debug, Clone, PartialEq)]
pub struct Place {
    pub id: i32,
    pub user_id: String,
    pub title: String,
    pub description: Option<String>,
    pub latitude: BigDecimal,
    pub longitude: BigDecimal,
    pub plans: Option<String>,
    pub category: Option<String>,
    pub hotels: Option<String>,
    pub restaurants: Option<String>,
    pub image_uri: Option<String>,
    pub address: Option<String>,
    pub created_at: Option<Timestamp>,
}

/// What a client sends to create a place.
#[derive(Debug, Clone, PartialEq)]
pub struct NewPlaceRequest {
    pub title: String,
    pub description: Option<String>,
    pub latitude: Option<BigDecimal>,
    pub longitude: Option<BigDecimal>,
    pub plans: Option<String>,
    pub category: String,
    pub hotels: Option<String>,
    pub restaurants: Option<String>,
    pub image_uri: Option<String>,
    pub address: Option<String>,
}

/// A place to be stored: the client's fields and the owner.
#[derive(Debug, Clone, PartialEq)]
pub struct NewPlace {
    pub user_id: String,
    pub title: String,
    pub description: Option<String>,
    pub latitude: Option<BigDecimal>,
    pub longitude: Option<BigDecimal>,
    pub plans: Option<String>,
    pub category: String,
    pub hotels: Option<String>,
    pub restaurants: Option<String>,
    pub image_uri: Option<String>,
    pub address: Option<String>,
}

} // verus!
