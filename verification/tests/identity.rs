//! Tests of registration, authentication, token generation and the error
//! taxonomy.

use bitbeam::data::ApiError;
use bitbeam::ids::current_timestamp;
use bitbeam::ids::generate_token;
use bitbeam::store::ServiceState;

#[test]
fn register_then_authenticate_resolves_username() {
    let mut s = ServiceState::new();
    let r = s.register(
        "alice".to_string(),
        "pw".to_string(),
        "key-1".to_string(),
        true,
    );
    assert_eq!(r, Ok("key-1".to_string()));
    assert_eq!(s.authenticate(&"key-1".to_string()), Ok("alice".to_string()));
    assert_eq!(
        s.authenticate(&"key-2".to_string()),
        Err(ApiError::Authorization)
    );
}

#[test]
fn register_duplicate_username_is_conflict() {
    let mut s = ServiceState::new();
    let r1 = s.register(
        "alice".to_string(),
        "pw1".to_string(),
        "key-1".to_string(),
        true,
    );
    assert!(r1.is_ok());
    let r2 = s.register(
        "alice".to_string(),
        "pw2".to_string(),
        "key-2".to_string(),
        true,
    );
    assert_eq!(r2, Err(ApiError::Conflict));
    assert_eq!(s.users.len(), 1);
}

#[test]
fn register_disabled_is_forbidden_and_writes_nothing() {
    let mut s = ServiceState::new();
    let r = s.register(
        "alice".to_string(),
        "pw".to_string(),
        "key-1".to_string(),
        false,
    );
    assert_eq!(r, Err(ApiError::Forbidden));
    assert_eq!(s.users.len(), 0);
}

#[test]
fn register_colliding_key_is_persistence_error() {
    let mut s = ServiceState::new();
    let r1 = s.register(
        "alice".to_string(),
        "pw".to_string(),
        "key-1".to_string(),
        true,
    );
    assert!(r1.is_ok());
    let r2 = s.register(
        "bob".to_string(),
        "pw".to_string(),
        "key-1".to_string(),
        true,
    );
    assert_eq!(r2, Err(ApiError::Persistence));
    assert_eq!(s.users.len(), 1);
}

#[test]
fn distinct_usernames_register_under_distinct_keys() {
    let mut s = ServiceState::new();
    assert!(s
        .register("alice".to_string(), "pw".to_string(), "key-1".to_string(), true)
        .is_ok());
    assert!(s
        .register("bob".to_string(), "pw".to_string(), "key-2".to_string(), true)
        .is_ok());
    assert_eq!(s.users.len(), 2);
    assert_eq!(s.authenticate(&"key-2".to_string()), Ok("bob".to_string()));
}

#[test]
fn generated_tokens_are_usable_identifiers() {
    let token = generate_token();
    // The hyphenated text form of 128 bits: 36 characters, ASCII.
    assert_eq!(token.len(), 36);
    assert!(token.is_ascii());
    let mut s = ServiceState::new();
    let r = s.register("alice".to_string(), "pw".to_string(), token.clone(), true);
    assert_eq!(r, Ok(token.clone()));
    assert_eq!(s.authenticate(&token), Ok("alice".to_string()));
}

#[test]
fn register_user_generates_a_fresh_usable_key() {
    let mut s = ServiceState::new();
    let k1 = s
        .register_user("alice".to_string(), "pw".to_string(), true)
        .ok()
        .expect("registration should succeed");
    assert_eq!(k1.len(), 36);
    assert_eq!(s.authenticate(&k1), Ok("alice".to_string()));
    let k2 = s
        .register_user("bob".to_string(), "pw".to_string(), true)
        .ok()
        .expect("registration should succeed");
    // Both registrations succeeded, so the keys cannot have collided.
    assert_ne!(k1, k2);
    assert_eq!(s.users.len(), 2);
}

#[test]
fn register_user_disabled_is_forbidden() {
    let mut s = ServiceState::new();
    let r = s.register_user("alice".to_string(), "pw".to_string(), false);
    assert_eq!(r, Err(ApiError::Forbidden));
    assert_eq!(s.users.len(), 0);
}

#[test]
fn current_timestamp_is_after_the_epoch() {
    let t = current_timestamp();
    assert!(t > 0);
}

#[test]
fn error_kinds_map_to_distinct_statuses() {
    assert_eq!(ApiError::Validation.status_code(), 400);
    assert_eq!(ApiError::Authorization.status_code(), 401);
    assert_eq!(ApiError::NotFound.status_code(), 404);
    assert_eq!(ApiError::Storage.status_code(), 500);
    assert_eq!(ApiError::Persistence.status_code(), 500);
    assert_eq!(ApiError::Conflict.status_code(), 409);
    assert_eq!(ApiError::Forbidden.status_code(), 403);
}

#[test]
fn error_messages_stay_generic() {
    assert_eq!(ApiError::Validation.message(), "required header not supplied");
    assert_eq!(ApiError::NotFound.message(), "file not found");
    assert_eq!(ApiError::Conflict.message(), "user already exists");
    assert_eq!(ApiError::Forbidden.message(), "registration is not allowed");
}
