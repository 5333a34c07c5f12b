use dash_core::auth::{AuthError, AuthErrorType, AuthToken};

#[test]
fn token_new_is_bearer() {
    let t = AuthToken::new(String::from("abc.def.ghi"));
    assert_eq!(t.token, "abc.def.ghi");
    assert_eq!(t.token_type, "Bearer");
}

#[test]
fn token_default_is_empty() {
    let t = AuthToken::default();
    assert_eq!(t.token, "");
    assert_eq!(t.token_type, "Bearer");
}

#[test]
fn token_authorization_names_the_scheme() {
    assert_eq!(AuthToken::new(String::from("abc.def.ghi")).authorization(), "Bearer abc.def.ghi");
    assert_eq!(AuthToken::default().authorization(), "Bearer ");
}

#[test]
fn token_from_string_is_bearer() {
    let t = AuthToken::from_string(String::from("xyz"));
    assert_eq!(t.token, "xyz");
    assert_eq!(t.token_type, "Bearer");
}

#[test]
fn token_to_string_gives_signed_part() {
    let t = AuthToken::new(String::from("abc"));
    assert_eq!(t.to_string(), "abc");
}

#[test]
fn default_error_is_server_error() {
    let e = AuthError::default();
    assert_eq!(e.status(), 500);
    assert_eq!(e.body().error_type, AuthErrorType::ServerError);
    assert_eq!(e.body().message, "Server error");
}

fn expect(kind: AuthErrorType, status: u16, message: &str) {
    let first = AuthError::from_error_type(kind);
    let second = AuthError::from_error_type(kind);
    assert_eq!(first.status(), status);
    assert_eq!(first.body().error_type, kind);
    assert_eq!(first.body().message, message);
    assert_eq!(first.status(), second.status());
    assert_eq!(first.body().error_type, second.body().error_type);
    assert_eq!(first.body().message, second.body().message);
}

#[test]
fn catalogue_server_error() {
    expect(AuthErrorType::ServerError, 500, "Server error");
}

#[test]
fn catalogue_access_denied() {
    expect(AuthErrorType::AccessDenied, 403, "Access denied");
}

#[test]
fn catalogue_user_not_exist() {
    expect(AuthErrorType::UserNotExist, 404, "User does not exist");
}

#[test]
fn catalogue_user_exists() {
    expect(AuthErrorType::UserExists, 409, "User already exists");
}

#[test]
fn catalogue_missing_fields() {
    expect(AuthErrorType::MissingFields, 400, "Missing required fields");
}

#[test]
fn catalogue_invalid_email() {
    expect(AuthErrorType::InvalidEmail, 400, "Invalid email address");
}

#[test]
fn catalogue_wrong_credentials() {
    expect(AuthErrorType::WrongCredentials, 401, "Wrong credentials");
}

#[test]
fn catalogue_invalid_token() {
    expect(AuthErrorType::InvalidToken, 403, "Invalid token");
}

#[test]
fn catalogue_token_generation() {
    expect(AuthErrorType::TokenGeneration, 500, "Token generation error");
}
