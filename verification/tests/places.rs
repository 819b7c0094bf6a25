use bigdecimal::BigDecimal;
use std::str::FromStr;
use travels_backend::handlers::places::{
    add_place, bearer_token, delete_place, get_place_by_id, get_places, new_place,
    place_response, place_responses, places_filter, prepare_place, prepare_place_at,
    update_place, PlaceResponse, QueryParams,
};
use travels_backend::http::{store_failure, Body, Reply};
use travels_backend::store::StoreError;
use travels_backend::models::{NewPlace, NewPlaceRequest, Place, Timestamp};
use travels_backend::utils::jwt::{generate_jwt_at, Claims};

const SECRET: &str = "server secret";

fn decimal(text: &str) -> BigDecimal {
    BigDecimal::from_str(text).unwrap()
}

fn request() -> NewPlaceRequest {
    NewPlaceRequest {
        title: "Eiffel Tower".to_string(),
        description: Some("Iron tower".to_string()),
        latitude: Some(decimal("48.858370")),
        longitude: Some(decimal("2.294481")),
        plans: None,
        category: "sight".to_string(),
        hotels: Some("Hotel A".to_string()),
        restaurants: None,
        image_uri: Some("tower.png".to_string()),
        address: Some("Champ de Mars".to_string()),
    }
}

fn place(id: i32) -> Place {
    Place {
        id,
        user_id: "Ann".to_string(),
        title: "Eiffel Tower".to_string(),
        description: Some("Iron tower".to_string()),
        latitude: decimal("48.858370"),
        longitude: decimal("2.294481"),
        plans: None,
        category: Some("sight".to_string()),
        hotels: Some("Hotel A".to_string()),
        restaurants: None,
        image_uri: Some("tower.png".to_string()),
        address: Some("Champ de Mars".to_string()),
        created_at: Some(Timestamp { secs: 1_441_497_364, nanos: 0 }),
    }
}

fn shown(id: i32) -> PlaceResponse {
    PlaceResponse {
        id,
        user_id: "Ann".to_string(),
        title: "Eiffel Tower".to_string(),
        description: Some("Iron tower".to_string()),
        latitude: decimal("48.858370"),
        longitude: decimal("2.294481"),
        plans: None,
        category: Some("sight".to_string()),
        hotels: Some("Hotel A".to_string()),
        restaurants: None,
        image_uri: Some("tower.png".to_string()),
        address: Some("Champ de Mars".to_string()),
        created_at: Some("2015-09-05 23:56:04".to_string()),
    }
}

fn text(status: u16, body: &str) -> Reply {
    Reply { status, body: Body::Text(body.to_string()) }
}

fn message(status: u16, body: &str) -> Reply {
    Reply { status, body: Body::Message(body.to_string()) }
}

fn error(status: u16, body: &str) -> Reply {
    Reply { status, body: Body::Error(body.to_string()) }
}

#[test]
fn store_failures_are_500_without_detail() {
    assert_eq!(
        store_failure(StoreError::Connection, "Failed to fetch place"),
        text(500, "Database connection error")
    );
    assert_eq!(
        store_failure(StoreError::Query, "Failed to fetch place"),
        text(500, "Failed to fetch place")
    );
}

#[test]
fn bearer_token_is_what_follows_the_prefix() {
    assert_eq!(bearer_token(Some("Bearer abc.def.ghi")), "abc.def.ghi");
    assert_eq!(bearer_token(Some("Bearer  x")), " x");
    assert_eq!(bearer_token(Some("Bearer Bearer x")), "Bearer x");
}

#[test]
fn bearer_token_is_empty_without_the_prefix() {
    assert_eq!(bearer_token(None), "");
    assert_eq!(bearer_token(Some("")), "");
    assert_eq!(bearer_token(Some("Bearer ")), "");
    assert_eq!(bearer_token(Some("Bearer")), "");
    assert_eq!(bearer_token(Some("bearer abc")), "");
    assert_eq!(bearer_token(Some("Basic abc")), "");
    assert_eq!(bearer_token(Some(" Bearer abc")), "");
    assert_eq!(bearer_token(Some("abc")), "");
}

#[test]
fn new_place_is_owned_by_the_name_in_the_token() {
    let claims = Claims { sub: "uuid".to_string(), first_name: "Ann".to_string(), exp: 5 };
    assert_eq!(
        new_place(request(), claims),
        NewPlace {
            user_id: "Ann".to_string(),
            title: "Eiffel Tower".to_string(),
            description: Some("Iron tower".to_string()),
            latitude: Some(decimal("48.858370")),
            longitude: Some(decimal("2.294481")),
            plans: None,
            category: "sight".to_string(),
            hotels: Some("Hotel A".to_string()),
            restaurants: None,
            image_uri: Some("tower.png".to_string()),
            address: Some("Champ de Mars".to_string()),
        }
    );
}

#[test]
fn creating_without_a_token_is_unauthorized() {
    let expected = Err(error(401, "Missing or invalid token"));
    assert_eq!(prepare_place_at(None, request(), SECRET, 0), expected);
    assert_eq!(prepare_place_at(Some(""), request(), SECRET, 0), expected);
    assert_eq!(prepare_place_at(Some("Bearer "), request(), SECRET, 0), expected);
    assert_eq!(prepare_place(None, request(), SECRET), expected);
    let token = generate_jwt_at("uuid", "Ann", Some(SECRET), 100, 0).unwrap();
    // The token without the prefix is no bearer token.
    assert_eq!(prepare_place_at(Some(&token), request(), SECRET, 0), expected);
}

#[test]
fn creating_with_a_bad_token_is_unauthorized() {
    let expected = Err(error(401, "Invalid token"));
    assert_eq!(prepare_place_at(Some("Bearer garbage"), request(), SECRET, 0), expected);
    let token = generate_jwt_at("uuid", "Ann", Some(SECRET), 100, 0).unwrap();
    let header = format!("Bearer {}", token);
    assert_eq!(prepare_place_at(Some(&header), request(), "another secret", 0), expected);
    assert_eq!(prepare_place_at(Some(&header), request(), SECRET, 100), expected);
    assert_eq!(prepare_place(Some(&header), request(), SECRET), expected);
}

#[test]
fn creating_with_a_valid_token_gives_the_place_to_store() {
    let token = generate_jwt_at("uuid", "Ann", Some(SECRET), 100, 0).unwrap();
    let header = format!("Bearer {}", token);
    let stored = prepare_place_at(Some(&header), request(), SECRET, 99).unwrap();
    assert_eq!(stored.user_id, "Ann");
    assert_eq!(stored.title, "Eiffel Tower");
    assert_eq!(stored.latitude, Some(decimal("48.858370")));
    assert_eq!(stored.longitude, Some(decimal("2.294481")));
    assert_eq!(stored.category, "sight");
    assert_eq!(
        stored,
        new_place(
            request(),
            Claims { sub: "uuid".to_string(), first_name: "Ann".to_string(), exp: 100 }
        )
    );
}

#[test]
fn add_place_replies() {
    assert_eq!(add_place(Ok(1)), message(201, "Place added successfully"));
    assert_eq!(add_place(Ok(0)), message(201, "Place added successfully"));
    assert_eq!(add_place(Err(StoreError::Query)), text(500, "Failed to insert place"));
    assert_eq!(add_place(Err(StoreError::Connection)), text(500, "Database connection error"));
}

#[test]
fn place_is_shown_as_stored() {
    assert_eq!(place_response(&place(7)), shown(7));
}

#[test]
fn coordinates_are_shown_digit_for_digit() {
    let mut stored = place(1);
    stored.latitude = decimal("-0.10000000000000000000000000000000000001");
    stored.longitude = decimal("179.9999999999999999999999");
    let response = place_response(&stored);
    assert_eq!(response.latitude.to_string(), "-0.10000000000000000000000000000000000001");
    assert_eq!(response.longitude.to_string(), "179.9999999999999999999999");
    // Trailing zeros are kept too.
    stored.latitude = decimal("48.8500");
    assert_eq!(place_response(&stored).latitude.to_string(), "48.8500");
}

#[test]
fn creation_time_is_shown_as_date_and_time() {
    let mut stored = place(1);
    stored.created_at = Some(Timestamp { secs: 0, nanos: 0 });
    assert_eq!(place_response(&stored).created_at, Some("1970-01-01 00:00:00".to_string()));
    stored.created_at = Some(Timestamp { secs: 1_441_497_364, nanos: 500_000_000 });
    assert_eq!(place_response(&stored).created_at, Some("2015-09-05 23:56:04.500".to_string()));
    stored.created_at = Some(Timestamp { secs: -1, nanos: 0 });
    assert_eq!(place_response(&stored).created_at, Some("1969-12-31 23:59:59".to_string()));
    stored.created_at = None;
    assert_eq!(place_response(&stored).created_at, None);
}

#[test]
fn creation_time_out_of_range_is_not_shown() {
    let mut stored = place(1);
    stored.created_at = Some(Timestamp { secs: i64::MAX, nanos: 0 });
    assert_eq!(place_response(&stored).created_at, None);
    stored.created_at = Some(Timestamp { secs: 0, nanos: 2_000_000_000 });
    assert_eq!(place_response(&stored).created_at, None);
}

#[test]
fn places_are_shown_one_for_one_in_order() {
    assert_eq!(place_responses(&vec![]), vec![]);
    assert_eq!(
        place_responses(&vec![place(3), place(1), place(2)]),
        vec![shown(3), shown(1), shown(2)]
    );
}

#[test]
fn listing_is_narrowed_by_a_category_that_is_not_empty() {
    assert_eq!(places_filter(&QueryParams { category: None }), None);
    assert_eq!(places_filter(&QueryParams { category: Some(String::new()) }), None);
    assert_eq!(
        places_filter(&QueryParams { category: Some("sight".to_string()) }),
        Some("sight".to_string())
    );
    assert_eq!(
        places_filter(&QueryParams { category: Some(" ".to_string()) }),
        Some(" ".to_string())
    );
}

#[test]
fn get_places_replies() {
    assert_eq!(
        get_places(Ok(vec![place(1), place(2)])),
        Reply { status: 200, body: Body::Places(vec![shown(1), shown(2)]) }
    );
    assert_eq!(get_places(Ok(vec![])), Reply { status: 200, body: Body::Places(vec![]) });
    assert_eq!(get_places(Err(StoreError::Query)), text(500, "Failed to fetch places"));
    assert_eq!(get_places(Err(StoreError::Connection)), text(500, "Database connection error"));
}

#[test]
fn get_place_by_id_replies() {
    assert_eq!(
        get_place_by_id(Ok(Some(place(4)))),
        Reply { status: 200, body: Body::Place(shown(4)) }
    );
    assert_eq!(get_place_by_id(Ok(None)), error(404, "Place not found"));
    assert_eq!(get_place_by_id(Err(StoreError::Query)), text(500, "Failed to fetch place"));
    assert_eq!(
        get_place_by_id(Err(StoreError::Connection)),
        text(500, "Database connection error")
    );
}

#[test]
fn update_place_replies() {
    assert_eq!(update_place(Ok(1)), message(200, "Place updated successfully"));
    assert_eq!(update_place(Ok(0)), message(200, "Place updated successfully"));
    assert_eq!(update_place(Err(StoreError::Query)), text(500, "Failed to update place"));
    assert_eq!(update_place(Err(StoreError::Connection)), text(500, "Database connection error"));
}

#[test]
fn delete_place_replies() {
    assert_eq!(delete_place(Ok(1)), message(200, "Place deleted successfully"));
    assert_eq!(delete_place(Ok(2)), message(200, "Place deleted successfully"));
    assert_eq!(delete_place(Err(StoreError::Query)), text(500, "Failed to delete place"));
    assert_eq!(delete_place(Err(StoreError::Connection)), text(500, "Database connection error"));
}

#[test]
fn deleting_nothing_is_not_found() {
    let reply = delete_place(Ok(0));
    assert_eq!(reply, error(404, "Place not found"));
    assert_ne!(reply.status, 500);
}
