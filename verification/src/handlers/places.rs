//! Listing, reading, creating, changing and deleting places.

use crate::http::{
    is_store_failure, store_failure, Body, Reply, CREATED, NOT_FOUND, OK, UNAUTHORIZED,
};
use crate::models::{copy_text, text_view, NewPlace, NewPlaceRequest, Place, Timestamp};
use crate::store::StoreError;
use crate::utils::jwt::{
    check_outcome, decode_jwt_at, hs256_payload, unix_now, Claims, ClaimsView, TokenError,
};
use bigdecimal::BigDecimal;
use vstd::prelude::*;

verus! {

/// The query string of the listing.
#[derive(Debug, Clone, PartialEq, Eq)]
pub struct QueryParams {
    pub category: Option<String>,
}

/// A place as it is shown to a client.
#[derive(Debug, Clone, PartialEq)]
pub struct PlaceResponse {
    pub id: i32,
    pub user_id: String,
    pub title: String,
    pub description: Option<String>,
    pub latitude: BigDecimal,
    pub longitude: BigDecimal,
    pub plans: Option<String>,
    pub category: Option<String>,
    pub hotels: Option<String>,
    pub restaurants: Option<String>,
    pub image_uri: Option<String>,
    pub address: Option<String>,
    pub created_at: Option<String>,
}

/// What a client sends to change a place: a field that is `None` stays as it
/// is.
#[derive(Debug, Clone, PartialEq)]
pub struct UpdatePlaceRequest {
    pub title: Option<String>,
    pub description: Option<String>,
    pub latitude: Option<BigDecimal>,
    pub longitude: Option<BigDecimal>,
    pub plans: Option<String>,
    pub category: Option<String>,
    pub hotels: Option<String>,
    pub restaurants: Option<String>,
    pub image_uri: Option<String>,
    pub address: Option<String>,
}

/// The token in the value of an `Authorization` header: what follows
/// `Bearer `, and nothing where the header is missing or starts otherwise.
pub open spec fn bearer_token_of(authorization: Option<Seq<char>>) -> Seq<char> {
    match authorization {
        Some(value) => if "Bearer "@.is_prefix_of(value) {
            value.skip("Bearer "@.len() as int)
        } else {
            Seq::<char>::empty()
        },
        None => Seq::<char>::empty(),
    }
}

/// The characters of a header value, where there is a header.
pub open spec fn header_view(authorization: Option<&str>) -> Option<Seq<char>> {
    match authorization {
        Some(value) => Some(value@),
        None => None,
    }
}

/// Whether the first `n` characters of `value` are those of `prefix`.
fn starts_alike(value: &str, prefix: &str, n: usize) -> (r: bool)
    requires
        n <= value@.len(),
        n <= prefix@.len(),
    ensures
        r == (value@.take(n as int) == prefix@.take(n as int)),
{
    let mut i: usize = 0;
    while i < n
        invariant
            i <= n,
            n <= value@.len(),
            n <= prefix@.len(),
            value@.take(i as int) == prefix@.take(i as int),
        decreases n - i,
    {
        if value.get_char(i) != prefix.get_char(i) {
            assert(value@.take(n as int)[i as int] != prefix@.take(n as int)[i as int]);
            return false;
        }
        assert(value@.take(i + 1) == value@.take(i as int).push(value@[i as int]));
        assert(prefix@.take(i + 1) == prefix@.take(i as int).push(prefix@[i as int]));
        i = i + 1;
    }
    true
}

/// Takes the token out of the value of an `Authorization` header.
pub fn bearer_token(authorization: Option<&str>) -> (token: String)
    ensures
        token@ == bearer_token_of(header_view(authorization)),
{
    let prefix = "Bearer ";
    match authorization {
        Some(value) => {
            let length = value.unicode_len();
            let prefix_length = prefix.unicode_len();
            if prefix_length <= length && starts_alike(value, prefix, prefix_length) {
                assert(prefix@.take(prefix_length as int) == prefix@);
                value.substring_char(prefix_length, length).to_owned()
            } else {
                assert(prefix@.is_prefix_of(value@) ==> prefix@ == value@.take(
                    prefix@.len() as int,
                ));
                assert(prefix@.take(prefix@.len() as int) == prefix@);
                String::new()
            }
        },
        None => String::new(),
    }
}

/// `place` is what `request` asks for, owned by `owner`.
pub open spec fn is_place_for(place: NewPlace, request: NewPlaceRequest, owner: Seq<char>) -> bool {
    &&& place.user_id@ == owner
    &&& place.title == request.title
    &&& place.description == request.description
    &&& place.latitude == request.latitude
    &&& place.longitude == request.longitude
    &&& place.plans == request.plans
    &&& place.category == request.category
    &&& place.hotels == request.hotels
    &&& place.restaurants == request.restaurants
    &&& place.image_uri == request.image_uri
    &&& place.address == request.address
}

/// What the first step of creating a place gives, from what the token check
/// gave: the place to store, or the reply that ends the request.
pub open spec fn is_new_place_step(
    step: Result<NewPlace, Reply>,
    token: Seq<char>,
    checked: Result<ClaimsView, TokenError>,
    request: NewPlaceRequest,
) -> bool {
    if token.len() == 0 {
        step matches Err(reply) && reply.is_error(UNAUTHORIZED, "Missing or invalid token"@)
    } else {
        match checked {
            Ok(claims) => step matches Ok(place) && is_place_for(place, request, claims.first_name),
            Err(_) => step matches Err(reply) && reply.is_error(UNAUTHORIZED, "Invalid token"@),
        }
    }
}

/// The place that a request asks for, owned by the display name in `claims`.
pub fn new_place(place_data: NewPlaceRequest, claims: Claims) -> (place: NewPlace)
    ensures
        is_place_for(place, place_data, claims.first_name@),
{
    NewPlace {
        user_id: claims.first_name,
        title: place_data.title,
        description: place_data.description,
        latitude: place_data.latitude,
        longitude: place_data.longitude,
        plans: place_data.plans,
        category: place_data.category,
        hotels: place_data.hotels,
        restaurants: place_data.restaurants,
        image_uri: place_data.image_uri,
        address: place_data.address,
    }
}

/// First step of creating a place, at the instant `now`: who asks, and what
/// is to be stored.
///
/// Without a bearer token the request ends with 401 and `Missing or invalid
/// token`; with a token that the check turns down, whether for its signature
/// or for its age, with 401 and `Invalid token`. Otherwise the place to store
/// holds the client's fields unchanged and is owned by the display name in
/// the token.
pub fn prepare_place_at(
    authorization: Option<&str>,
    place_data: NewPlaceRequest,
    secret: &str,
    now: i64,
) -> (step: Result<NewPlace, Reply>)
    ensures
        is_new_place_step(
            step,
            bearer_token_of(header_view(authorization)),
            check_outcome(
                hs256_payload(bearer_token_of(header_view(authorization)), secret@),
                now as int,
            ),
            place_data,
        ),
{
    let token = bearer_token(authorization);
    if token.as_str().is_empty() {
        return Err(Reply::error(UNAUTHORIZED, "Missing or invalid token"));
    }
    match decode_jwt_at(token.as_str(), secret, now) {
        Ok(claims) => Ok(new_place(place_data, claims)),
        Err(_) => Err(Reply::error(UNAUTHORIZED, "Invalid token")),
    }
}

/// First step of creating a place, now. The clock is read once; the result is
/// what `prepare_place_at` gives for that reading.
pub fn prepare_place(
    authorization: Option<&str>,
    place_data: NewPlaceRequest,
    secret: &str,
) -> (step: Result<NewPlace, Reply>)
    ensures
        exists|now: i64|
            is_new_place_step(
                step,
                bearer_token_of(header_view(authorization)),
                #[trigger] check_outcome(
                    hs256_payload(bearer_token_of(header_view(authorization)), secret@),
                    now as int,
                ),
                place_data,
            ),
{
    let now = unix_now();
    prepare_place_at(authorization, place_data, secret, now)
}

/// Second step of creating a place: the reply, from what the store answered
/// to the insert.
///
/// 201 with the message `Place added successfully` where the store took the
/// row, 500 where it did not.
pub fn add_place(inserted: Result<usize, StoreError>) -> (reply: Reply)
    ensures
        match inserted {
            Ok(_) => reply.is_message(CREATED, "Place added successfully"@),
            Err(failure) => is_store_failure(reply, failure, "Failed to insert place"@),
        },
{
    match inserted {
        Ok(_) => Reply::message(CREATED, "Place added successfully"),
        Err(failure) => store_failure(failure, "Failed to insert place"),
    }
}

/// The text of the instant at which a row was made, where the row has one.
pub open spec fn created_text(created_at: Option<Timestamp>) -> Option<Seq<char>> {
    match created_at {
        Some(t) => t.spec_text(),
        None => None,
    }
}

/// `shown` is `place` as a client sees it: every field as it is stored, the
/// coordinates as the same decimals, and the creation time as text.
pub open spec fn shows(shown: PlaceResponse, place: Place) -> bool {
    &&& shown.id == place.id
    &&& shown.user_id == place.user_id
    &&& shown.title == place.title
    &&& shown.description == place.description
    &&& shown.latitude == place.latitude
    &&& shown.longitude == place.longitude
    &&& shown.plans == place.plans
    &&& shown.category == place.category
    &&& shown.hotels == place.hotels
    &&& shown.restaurants == place.restaurants
    &&& shown.image_uri == place.image_uri
    &&& shown.address == place.address
    &&& text_view(shown.created_at) == created_text(place.created_at)
}

/// A stored place as a client sees it.
pub fn place_response(place: &Place) -> (shown: PlaceResponse)
    ensures
        shows(shown, *place),
{
    let created_at = match &place.created_at {
        Some(t) => t.text(),
        None => None,
    };
    PlaceResponse {
        id: place.id,
        user_id: place.user_id.clone(),
        title: place.title.clone(),
        description: copy_text(&place.description),
        latitude: place.latitude.clone(),
        longitude: place.longitude.clone(),
        plans: copy_text(&place.plans),
        category: copy_text(&place.category),
        hotels: copy_text(&place.hotels),
        restaurants: copy_text(&place.restaurants),
        image_uri: copy_text(&place.image_uri),
        address: copy_text(&place.address),
        created_at,
    }
}

/// `shown` is `places` as a client sees them, one for one and in order.
pub open spec fn shows_all(shown: Seq<PlaceResponse>, places: Seq<Place>) -> bool {
    &&& shown.len() == places.len()
    &&& forall|i: int| 0 <= i < places.len() ==> shows(#[trigger] shown[i], places[i])
}

/// Stored places as a client sees them, one for one and in order.
pub fn place_responses(places: &Vec<Place>) -> (shown: Vec<PlaceResponse>)
    ensures
        shows_all(shown@, places@),
{
    let mut shown: Vec<PlaceResponse> = Vec::new();
    let mut i: usize = 0;
    while i < places.len()
        invariant
            i <= places.len(),
            shown.len() == i,
            forall|j: int| 0 <= j < i ==> shows(#[trigger] shown[j], places[j]),
        decreases places.len() - i,
    {
        shown.push(place_response(&places[i]));
        i = i + 1;
    }
    shown
}

/// The category that a listing is narrowed to: the one in the query, unless
/// it is missing or empty.
pub open spec fn filter_of(category: Option<String>) -> Option<String> {
    match category {
        Some(c) => if c@.len() == 0 {
            None
        } else {
            Some(c)
        },
        None => None,
    }
}

/// First step of a listing: the category to ask the store for, or `None` for
/// every place.
pub fn places_filter(query: &QueryParams) -> (filter: Option<String>)
    ensures
        filter == filter_of(query.category),
{
    match &query.category {
        Some(c) => if c.as_str().is_empty() {
            None
        } else {
            Some(c.clone())
        },
        None => None,
    }
}

/// Second step of a listing: the reply, from what the store loaded.
///
/// 200 with every loaded place, in the store's order, each shown field by
/// field as stored; 500 where the store failed.
pub fn get_places(loaded: Result<Vec<Place>, StoreError>) -> (reply: Reply)
    ensures
        match loaded {
            Ok(places) => {
                &&& reply.status == OK
                &&& reply.body matches Body::Places(shown)
                &&& shows_all(shown@, places@)
            },
            Err(failure) => is_store_failure(reply, failure, "Failed to fetch places"@),
        },
{
    match &loaded {
        Ok(places) => Reply { status: OK, body: Body::Places(place_responses(places)) },
        Err(failure) => store_failure(*failure, "Failed to fetch places"),
    }
}

/// The reply to a request for one place, from what the store found.
///
/// 200 with the place, shown field by field as stored; 404 with `Place not
/// found` where the store has no such row; 500 where the store failed.
pub fn get_place_by_id(found: Result<Option<Place>, StoreError>) -> (reply: Reply)
    ensures
        match found {
            Ok(Some(place)) => {
                &&& reply.status == OK
                &&& reply.body matches Body::Place(shown)
                &&& shows(shown, place)
            },
            Ok(None) => reply.is_error(NOT_FOUND, "Place not found"@),
            Err(failure) => is_store_failure(reply, failure, "Failed to fetch place"@),
        },
{
    match &found {
        Ok(Some(place)) => Reply { status: OK, body: Body::Place(place_response(place)) },
        Ok(None) => Reply::error(NOT_FOUND, "Place not found"),
        Err(failure) => store_failure(*failure, "Failed to fetch place"),
    }
}

/// The reply to a change, from what the store answered to the update: 200
/// with `Place updated successfully` whenever the statement ran, however many
/// rows it touched; 500 where the store failed.
pub fn update_place(updated: Result<usize, StoreError>) -> (reply: Reply)
    ensures
        match updated {
            Ok(_) => reply.is_message(OK, "Place updated successfully"@),
            Err(failure) => is_store_failure(reply, failure, "Failed to update place"@),
        },
{
    match updated {
        Ok(_) => Reply::message(OK, "Place updated successfully"),
        Err(failure) => store_failure(failure, "Failed to update place"),
    }
}

/// What a delete answers, from the number of rows that the store removed:
/// 404 with `Place not found` where it removed none, 200 with `Place deleted
/// successfully` where it removed some; 500 where the store failed.
pub open spec fn is_delete_reply(reply: Reply, deleted: Result<usize, StoreError>) -> bool {
    match deleted {
        Ok(rows) => if rows == 0 {
            reply.is_error(NOT_FOUND, "Place not found"@)
        } else {
            reply.is_message(OK, "Place deleted successfully"@)
        },
        Err(failure) => is_store_failure(reply, failure, "Failed to delete place"@),
    }
}

/// The reply to a delete, from the number of rows that the store removed.
///
/// A delete that found no row is answered with 404, not with an error of the
/// server.
pub fn delete_place(deleted: Result<usize, StoreError>) -> (reply: Reply)
    ensures
        is_delete_reply(reply, deleted),
{
    match deleted {
        Ok(rows) => if rows == 0 {
            Reply::error(NOT_FOUND, "Place not found")
        } else {
            Reply::message(OK, "Place deleted successfully")
        },
        Err(failure) => store_failure(failure, "Failed to delete place"),
    }
}

} // verus!
