use travels_backend::handlers::auth::{
    login_user, login_user_at, prepare_user, register_user, register_user_at, user_record,
    verify_auth, verify_auth_at, LoginUser, RegisterUser, VerifyAuthResponse,
};
use travels_backend::http::{Body, Reply};
use travels_backend::store::StoreError;
use travels_backend::models::{NewUser, Timestamp, User};
use travels_backend::utils::jwt::{decode_jwt_at, generate_jwt_at, Claims};
use travels_backend::utils::password::{hash_password_with_salt, verify_password};

const SECRET: &str = "server secret";
const DAY: u64 = 86_400;
const UUID: &str = "67e55044-10b1-426f-9247-bb680e5fe0c8";
const SALT: &str = "c29tZXNhbHRzb21lc2FsdA";

fn ann() -> RegisterUser {
    RegisterUser {
        first_name: "Ann".to_string(),
        last_name: "Lee".to_string(),
        email: "ann@example.com".to_string(),
        password: "hunter2".to_string(),
    }
}

fn ann_record() -> NewUser {
    NewUser {
        user_id: "Ann".to_string(),
        uuid_user_id: Some(UUID.to_string()),
        first_name: "Ann".to_string(),
        last_name: "Lee".to_string(),
        email: "ann@example.com".to_string(),
        password: hash_password_with_salt("hunter2", SALT).unwrap(),
    }
}

/// The row that a store keeps of a record.
fn stored(record: &NewUser, secs: i64) -> User {
    User {
        user_id: record.user_id.clone(),
        uuid_user_id: record.uuid_user_id.clone(),
        first_name: Some(record.first_name.clone()),
        last_name: Some(record.last_name.clone()),
        email: Some(record.email.clone()),
        password: Some(record.password.clone()),
        created_at: Some(Timestamp { secs, nanos: 0 }),
    }
}

fn login(password: &str) -> LoginUser {
    LoginUser { email: "ann@example.com".to_string(), password: password.to_string() }
}

fn text(status: u16, body: &str) -> Reply {
    Reply { status, body: Body::Text(body.to_string()) }
}

fn verdict(status: u16, message: &str) -> Reply {
    Reply { status, body: Body::Verify(VerifyAuthResponse { message: message.to_string() }) }
}

fn token_of(reply: &Reply) -> String {
    match &reply.body {
        Body::Token { token, .. } => token.clone(),
        other => panic!("no token in {:?}", other),
    }
}

#[test]
fn record_holds_the_request_and_the_hash() {
    let record = user_record(ann(), UUID.to_string(), "the hash".to_string());
    assert_eq!(
        record,
        NewUser {
            user_id: "Ann".to_string(),
            uuid_user_id: Some(UUID.to_string()),
            first_name: "Ann".to_string(),
            last_name: "Lee".to_string(),
            email: "ann@example.com".to_string(),
            password: "the hash".to_string(),
        }
    );
}

#[test]
fn prepared_user_holds_names_and_email() {
    let record = prepare_user(ann()).unwrap();
    assert_eq!(record.user_id, "Ann");
    assert_eq!(record.first_name, "Ann");
    assert_eq!(record.last_name, "Lee");
    assert_eq!(record.email, "ann@example.com");
}

#[test]
fn prepared_user_holds_a_hash_of_the_password() {
    let record = prepare_user(ann()).unwrap();
    assert_ne!(record.password, "hunter2");
    assert!(record.password.starts_with("$argon2id$"));
    assert_eq!(verify_password("hunter2", &record.password), Ok(true));
    assert_eq!(verify_password("hunter1", &record.password), Ok(false));
}

#[test]
fn prepared_user_has_a_random_uuid() {
    let first = prepare_user(ann()).unwrap().uuid_user_id.unwrap();
    let second = prepare_user(ann()).unwrap().uuid_user_id.unwrap();
    assert_ne!(first, second);
    for id in [first, second] {
        let chars: Vec<char> = id.chars().collect();
        assert_eq!(chars.len(), 36);
        for (i, c) in chars.iter().enumerate() {
            if i == 8 || i == 13 || i == 18 || i == 23 {
                assert_eq!(*c, '-');
            } else {
                assert!(c.is_ascii_digit() || ('a'..='f').contains(c), "{} in {}", c, id);
            }
        }
        assert_eq!(chars[14], '4');
        assert!(matches!(chars[19], '8' | '9' | 'a' | 'b'));
    }
}

#[test]
fn signup_answers_201_with_a_token_for_the_uuid() {
    let record = ann_record();
    let reply = register_user_at(&record, Ok(1), Some(SECRET), DAY, 1_000);
    assert_eq!(reply.status, 201);
    match &reply.body {
        Body::Token { message, token } => {
            assert_eq!(message, "User created successfully");
            assert_eq!(
                token,
                &generate_jwt_at(UUID, "Ann", Some(SECRET), DAY, 1_000).unwrap()
            );
            assert_eq!(
                decode_jwt_at(token, SECRET, 1_000),
                Ok(Claims { sub: UUID.to_string(), first_name: "Ann".to_string(), exp: 87_400 })
            );
        }
        other => panic!("unexpected body {:?}", other),
    }
}

#[test]
fn signup_answers_500_when_the_store_refuses() {
    let record = ann_record();
    assert_eq!(
        register_user_at(&record, Err(StoreError::Query), Some(SECRET), DAY, 1_000),
        text(500, "Error creating user")
    );
    assert_eq!(
        register_user_at(&record, Err(StoreError::Connection), Some(SECRET), DAY, 1_000),
        text(500, "Database connection error")
    );
    assert_eq!(
        register_user(&record, Err(StoreError::Query), Some(SECRET), DAY),
        text(500, "Error creating user")
    );
}

#[test]
fn signup_answers_500_without_a_secret() {
    let record = ann_record();
    assert_eq!(
        register_user_at(&record, Ok(1), None, DAY, 1_000),
        text(500, "Error generating JWT")
    );
    assert_eq!(register_user(&record, Ok(1), None, DAY), text(500, "Error generating JWT"));
}

#[test]
fn signup_without_a_uuid_signs_an_empty_subject() {
    let mut record = ann_record();
    record.uuid_user_id = None;
    let reply = register_user_at(&record, Ok(1), Some(SECRET), DAY, 1_000);
    assert_eq!(reply.status, 201);
    assert_eq!(decode_jwt_at(&token_of(&reply), SECRET, 1_000).unwrap().sub, "");
}

#[test]
fn signup_now_answers_with_a_token_that_is_valid_now() {
    let record = ann_record();
    let reply = register_user(&record, Ok(1), Some(SECRET), DAY);
    assert_eq!(reply.status, 201);
    assert_eq!(verify_auth(Some(token_of(&reply)), SECRET), verdict(200, "Token valid"));
}

#[test]
fn login_answers_200_with_a_token() {
    let user = stored(&ann_record(), 500);
    let reply = login_user_at(&login("hunter2"), Ok(Some(user)), Some(SECRET), DAY, 2_000);
    assert_eq!(reply.status, 200);
    match &reply.body {
        Body::Token { message, token } => {
            assert_eq!(message, "Login successful");
            assert_eq!(
                decode_jwt_at(token, SECRET, 2_000),
                Ok(Claims { sub: UUID.to_string(), first_name: "Ann".to_string(), exp: 88_400 })
            );
        }
        other => panic!("unexpected body {:?}", other),
    }
}

#[test]
fn login_with_a_wrong_password_is_unauthorized() {
    let user = stored(&ann_record(), 500);
    assert_eq!(
        login_user_at(&login("hunter3"), Ok(Some(user.clone())), Some(SECRET), DAY, 2_000),
        text(401, "Invalid credentials")
    );
    assert_eq!(
        login_user(&login(""), Ok(Some(user)), Some(SECRET), DAY),
        text(401, "Invalid credentials")
    );
}

#[test]
fn login_of_an_unknown_user_is_unauthorized() {
    assert_eq!(
        login_user_at(&login("hunter2"), Ok(None), Some(SECRET), DAY, 2_000),
        text(401, "Invalid credentials")
    );
    assert_eq!(
        login_user(&login("hunter2"), Ok(None), Some(SECRET), DAY),
        text(401, "Invalid credentials")
    );
}

#[test]
fn login_of_a_user_without_password_is_unauthorized() {
    let mut user = stored(&ann_record(), 500);
    user.password = None;
    assert_eq!(
        login_user_at(&login("hunter2"), Ok(Some(user)), Some(SECRET), DAY, 2_000),
        text(401, "Invalid credentials")
    );
}

#[test]
fn login_answers_500_when_the_store_fails() {
    assert_eq!(
        login_user_at(&login("hunter2"), Err(StoreError::Query), Some(SECRET), DAY, 2_000),
        text(500, "Failed to fetch user")
    );
    assert_eq!(
        login_user_at(&login("hunter2"), Err(StoreError::Connection), Some(SECRET), DAY, 2_000),
        text(500, "Database connection error")
    );
}

#[test]
fn login_answers_500_when_the_stored_hash_is_malformed() {
    let mut user = stored(&ann_record(), 500);
    user.password = Some("hunter2".to_string());
    assert_eq!(
        login_user_at(&login("hunter2"), Ok(Some(user)), Some(SECRET), DAY, 2_000),
        text(500, "Error verifying password")
    );
}

#[test]
fn login_answers_500_without_a_secret() {
    let user = stored(&ann_record(), 500);
    assert_eq!(
        login_user_at(&login("hunter2"), Ok(Some(user.clone())), None, DAY, 2_000),
        text(500, "Error generating JWT")
    );
    // A wrong password is still what is reported first.
    assert_eq!(
        login_user_at(&login("nope"), Ok(Some(user)), None, DAY, 2_000),
        text(401, "Invalid credentials")
    );
}

#[test]
fn login_of_a_user_without_names_signs_empty_claims() {
    let mut user = stored(&ann_record(), 500);
    user.uuid_user_id = None;
    user.first_name = None;
    let reply = login_user_at(&login("hunter2"), Ok(Some(user)), Some(SECRET), DAY, 2_000);
    assert_eq!(reply.status, 200);
    let claims = decode_jwt_at(&token_of(&reply), SECRET, 2_000).unwrap();
    assert_eq!(claims.sub, "");
    assert_eq!(claims.first_name, "");
}

#[test]
fn login_now_answers_with_a_token_that_is_valid_now() {
    let user = stored(&ann_record(), 500);
    let reply = login_user(&login("hunter2"), Ok(Some(user)), Some(SECRET), DAY);
    assert_eq!(reply.status, 200);
    assert_eq!(verify_auth(Some(token_of(&reply)), SECRET), verdict(200, "Token valid"));
}

#[test]
fn check_without_a_token_is_a_bad_request() {
    assert_eq!(verify_auth_at(None, SECRET, 0), verdict(400, "No token provided"));
    assert_eq!(verify_auth_at(Some(String::new()), SECRET, 0), verdict(400, "No token provided"));
    assert_eq!(verify_auth(None, SECRET), verdict(400, "No token provided"));
}

#[test]
fn check_of_a_valid_token_answers_200() {
    let token = generate_jwt_at(UUID, "Ann", Some(SECRET), DAY, 1_000).unwrap();
    assert_eq!(verify_auth_at(Some(token.clone()), SECRET, 1_000), verdict(200, "Token valid"));
    assert_eq!(verify_auth_at(Some(token), SECRET, 87_399), verdict(200, "Token valid"));
}

#[test]
fn check_of_an_expired_or_foreign_token_answers_401_alike() {
    let token = generate_jwt_at(UUID, "Ann", Some(SECRET), DAY, 1_000).unwrap();
    let expired = verify_auth_at(Some(token.clone()), SECRET, 87_400);
    let foreign = verify_auth_at(Some(token), "another secret", 1_000);
    let garbage = verify_auth_at(Some("garbage".to_string()), SECRET, 1_000);
    assert_eq!(expired, verdict(401, "Invalid token"));
    assert_eq!(foreign, expired);
    assert_eq!(garbage, expired);
}

#[test]
fn check_takes_the_token_itself_not_a_bearer_header() {
    let token = generate_jwt_at(UUID, "Ann", Some(SECRET), DAY, 1_000).unwrap();
    assert_eq!(
        verify_auth_at(Some(format!("Bearer {}", token)), SECRET, 1_000),
        verdict(401, "Invalid token")
    );
}

#[test]
fn signup_login_and_check() {
    // Signup: 201 with a token.
    let record = prepare_user(ann()).unwrap();
    let signup = register_user_at(&record, Ok(1), Some(SECRET), DAY, 1_000);
    assert_eq!(signup.status, 201);
    let signup_token = token_of(&signup);

    // Login with the same credentials, a little later: 200 with another token.
    let user = stored(&record, 1_000);
    let reply = login_user_at(&login("hunter2"), Ok(Some(user)), Some(SECRET), DAY, 1_060);
    assert_eq!(reply.status, 200);
    let login_token = token_of(&reply);
    assert_ne!(login_token, signup_token);

    // The token is valid.
    assert_eq!(
        verify_auth_at(Some(login_token.clone()), SECRET, 1_061),
        verdict(200, "Token valid")
    );

    // With one character flipped it is not.
    let mut tampered: Vec<char> = login_token.chars().collect();
    let at = tampered.len() - 3;
    tampered[at] = if tampered[at] == 'x' { 'y' } else { 'x' };
    let tampered: String = tampered.into_iter().collect();
    assert_ne!(tampered, login_token);
    assert_eq!(verify_auth_at(Some(tampered), SECRET, 1_061), verdict(401, "Invalid token"));
}
