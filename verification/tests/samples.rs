use colorloom::samples::{process_request, AppError, HttpMethod, User, MAX_AGE};

#[test]
fn test_user_creation() {
    let user = User::new(1, "test", "test@example.com");
    assert!(user.is_ok());
}

#[test]
fn test_invalid_email() {
    let user = User::new(1, "test", "invalid-email");
    assert!(user.is_err());
}

#[test]
fn test_age_validation() {
    let mut user = User::new(1, "test", "test@example.com").unwrap();
    assert!(user.set_age(200).is_err());
    assert!(user.set_age(25).is_ok());
}

#[test]
fn new_user_is_active_and_has_no_age() {
    let user = User::new(7, "alice", "alice@example.com").unwrap();
    assert_eq!(user.id, 7);
    assert_eq!(user.username, "alice");
    assert_eq!(user.email, "alice@example.com");
    assert_eq!(user.age, None);
    assert!(user.is_active);
}

#[test]
fn empty_username_is_refused_before_the_email() {
    match User::new(1, "", "no-at-sign") {
        Err(AppError::InvalidInput { field, message }) => {
            assert_eq!(field, "username");
            assert_eq!(message, "Username cannot be empty");
        }
        other => panic!("unexpected: {:?}", other),
    }
}

#[test]
fn email_without_at_sign_is_refused() {
    match User::new(1, "bob", "bob.example.com") {
        Err(AppError::InvalidInput { field, message }) => {
            assert_eq!(field, "email");
            assert_eq!(message, "Invalid email format");
        }
        other => panic!("unexpected: {:?}", other),
    }
}

#[test]
fn age_limit_is_inclusive() {
    assert_eq!(MAX_AGE, 150);
    let mut user = User::new(1, "test", "test@example.com").unwrap();
    assert!(user.set_age(150).is_ok());
    assert_eq!(user.age, Some(150));
    match user.set_age(151) {
        Err(AppError::InvalidInput { field, message }) => {
            assert_eq!(field, "age");
            assert_eq!(message, "Age must be realistic");
        }
        other => panic!("unexpected: {:?}", other),
    }
    assert_eq!(user.age, Some(150));
}

#[test]
fn routes_answer_as_listed() {
    assert_eq!(process_request(HttpMethod::Get, "/users").unwrap(), "List all users");
    assert_eq!(process_request(HttpMethod::Get, "/users/42").unwrap(), "Get user with id: 42");
    assert_eq!(process_request(HttpMethod::Get, "/users/").unwrap(), "Get user with id: ");
    assert_eq!(process_request(HttpMethod::Post, "/users").unwrap(), "Create new user");
    assert_eq!(process_request(HttpMethod::Put, "/users/1").unwrap(), "Update user");
    assert_eq!(process_request(HttpMethod::Delete, "/users/1").unwrap(), "Delete user");
}

#[test]
fn other_requests_find_no_route() {
    match process_request(HttpMethod::Patch, "/users/1") {
        Err(AppError::NotFound(msg)) => assert_eq!(msg, "Route not found: Patch /users/1"),
        other => panic!("unexpected: {:?}", other),
    }
    match process_request(HttpMethod::Post, "/users/1") {
        Err(AppError::NotFound(msg)) => assert_eq!(msg, "Route not found: Post /users/1"),
        other => panic!("unexpected: {:?}", other),
    }
    match process_request(HttpMethod::Put, "/users") {
        Err(AppError::NotFound(msg)) => assert_eq!(msg, "Route not found: Put /users"),
        other => panic!("unexpected: {:?}", other),
    }
    assert!(process_request(HttpMethod::Delete, "/user/1").is_err());
    assert!(process_request(HttpMethod::Get, "").is_err());
}

#[test]
fn error_messages() {
    assert_eq!(AppError::NotFound("x".to_string()).message(), "Not found: x");
    assert_eq!(
        AppError::InvalidInput { field: "age".to_string(), message: "too old".to_string() }
            .message(),
        "Invalid input for age: too old"
    );
    assert_eq!(AppError::DatabaseError("down".to_string()).message(), "Database error: down");
    assert_eq!(AppError::Unauthorized.message(), "Unauthorized access");
}
