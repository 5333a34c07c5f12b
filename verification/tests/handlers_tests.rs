use dash_core::accounts::{account_from, check_password, new_account, password_outcome};
use dash_core::auth::AuthErrorType;
use dash_core::claims::{AuthClaims, AuthRequestClaims, JWTClaims, TokenConfig};
use dash_core::handlers::{
    authorize_delete, check_login, check_registration, classify_insert_failure, delete_user,
    find_bytes, get_all_user_info, get_user_info, grant_session, grant_session_at, login_user,
    login_user_at, register_user, register_user_at, request_with_token, request_with_token_at,
    require_elevated,
};
use dash_core::user::{LoginUser, RegisterUser, User, UserInfo};

fn conf() -> TokenConfig {
    TokenConfig {
        secret: b"0123456789".to_vec(),
        issuer: String::from("dash"),
        audience: String::from("dash-users"),
        lifetime: 600,
    }
}

fn registration(username: &str, email: &str, password: &str) -> RegisterUser {
    RegisterUser {
        username: String::from(username),
        email: String::from(email),
        password: String::from(password),
    }
}

fn stored(username: &str, password_hash: &str, is_admin: bool) -> User {
    User {
        id: 1,
        uuid: String::from("7f1c2a3e-0000-4000-8000-000000000001"),
        username: String::from(username),
        email: String::from("user@x.com"),
        password: String::from(password_hash),
        is_admin,
    }
}

fn session(acc: bool) -> AuthClaims {
    AuthClaims {
        iss: String::from("dash"),
        sub: String::from("u"),
        aud: String::from("dash-users"),
        exp: 10,
        acc,
        iat: 1,
    }
}

const SALT: [u8; 16] = *b"0123456789abcdef";

#[test]
fn find_bytes_cases() {
    assert!(find_bytes(b"hello world", b"o w"));
    assert!(find_bytes(b"hello", b"hello"));
    assert!(find_bytes(b"hello", b""));
    assert!(find_bytes(b"", b""));
    assert!(find_bytes(b"aab", b"ab"));
    assert!(find_bytes(b"hello", b"lo"));
    assert!(!find_bytes(b"hello", b"hello!"));
    assert!(!find_bytes(b"", b"a"));
    assert!(!find_bytes(b"hello", b"ol"));
}

#[test]
fn duplicate_key_means_user_exists() {
    let e = classify_insert_failure(
        "error returned from database: duplicate key value violates unique constraint \"users_username_key\"",
    );
    assert_eq!(e.body().error_type, AuthErrorType::UserExists);
    assert_eq!(e.status(), 409);
    let e = classify_insert_failure("duplicate key");
    assert_eq!(e.body().error_type, AuthErrorType::UserExists);
}

#[test]
fn other_storage_failure_is_server_error() {
    for m in ["connection refused", "", "duplicate ke", "Duplicate Key"] {
        let e = classify_insert_failure(m);
        assert_eq!(e.body().error_type, AuthErrorType::ServerError);
        assert_eq!(e.status(), 500);
    }
}

#[test]
fn registration_needs_every_field() {
    for f in [
        registration("", "alice@x.com", "secret1"),
        registration("alice", "", "secret1"),
        registration("alice", "alice@x.com", ""),
        registration("", "not an address", ""),
    ] {
        let e = check_registration(&f).unwrap_err();
        assert_eq!(e.body().error_type, AuthErrorType::MissingFields);
        assert_eq!(e.status(), 400);
    }
}

#[test]
fn registration_needs_a_valid_address() {
    let e = check_registration(&registration("alice", "alice-at-x", "secret1")).unwrap_err();
    assert_eq!(e.body().error_type, AuthErrorType::InvalidEmail);
    assert_eq!(e.status(), 400);
    assert!(check_registration(&registration("alice", "alice@x.com", "secret1")).is_ok());
}

#[test]
fn register_then_delete_is_denied() {
    let config = conf();
    let form = registration("alice", "alice@x.com", "secret1");
    assert!(check_registration(&form).is_ok());
    let account =
        account_from(form.clone(), String::from("uuid-alice"), Some(String::from("hash"))).unwrap();
    assert!(!account.is_admin);
    let user = User {
        id: 1,
        uuid: account.uuid,
        username: account.username,
        email: account.email,
        password: account.password,
        is_admin: account.is_admin,
    };
    let granted = register_user(&config, &form, Ok(user)).unwrap();
    assert_eq!(granted.status, 201);
    assert_eq!(granted.token.token_type, "Bearer");
    assert_eq!(
        granted.user,
        UserInfo { uuid: String::from("uuid-alice"), username: String::from("alice"), is_admin: false }
    );
    let t1 = granted.token.to_string();
    let claims = AuthClaims::from_string(&config, &t1).unwrap();
    assert_eq!(claims.sub, "uuid-alice");
    assert!(!claims.acc);
    let e = delete_user(&claims, Some(String::from("uuid-bob")), true).unwrap_err();
    assert_eq!(e.status(), 403);
    assert_eq!(e.body().error_type, AuthErrorType::AccessDenied);
    assert_eq!(e.body().message, "Access denied");
}

#[test]
fn register_storage_failure_is_mapped() {
    let form = registration("alice", "alice@x.com", "secret1");
    let e = register_user(&conf(), &form, Err(String::from("duplicate key value"))).unwrap_err();
    assert_eq!(e.status(), 409);
    let e = register_user(&conf(), &form, Err(String::from("pool timed out"))).unwrap_err();
    assert_eq!(e.status(), 500);
    assert_eq!(e.body().error_type, AuthErrorType::ServerError);
}

#[test]
fn login_needs_both_fields() {
    let e = check_login(&LoginUser { username: String::new(), password: String::from("pw") }).unwrap_err();
    assert_eq!(e.body().error_type, AuthErrorType::WrongCredentials);
    let e = check_login(&LoginUser { username: String::from("bob"), password: String::new() }).unwrap_err();
    assert_eq!(e.status(), 401);
    assert!(check_login(&LoginUser { username: String::from("bob"), password: String::from("pw") }).is_ok());
}

#[test]
fn login_wrong_password() {
    let account = new_account(registration("bob", "bob@x.com", "pw"), SALT).unwrap();
    let user = stored("bob", &account.password, false);
    let form = LoginUser { username: String::from("bob"), password: String::from("wrong") };
    let e = login_user(&conf(), &form, Some(user)).unwrap_err();
    assert_eq!(e.status(), 401);
    assert_eq!(e.body().error_type, AuthErrorType::WrongCredentials);
    assert_eq!(e.body().message, "Wrong credentials");
}

#[test]
fn login_right_password() {
    let config = conf();
    let account = new_account(registration("bob", "bob@x.com", "pw"), SALT).unwrap();
    let user = stored("bob", &account.password, true);
    let form = LoginUser { username: String::from("bob"), password: String::from("pw") };
    let granted = login_user(&config, &form, Some(user)).unwrap();
    assert_eq!(granted.status, 200);
    assert_eq!(granted.user.username, "bob");
    assert!(granted.user.is_admin);
    let claims = AuthClaims::from_string(&config, &granted.token.token).unwrap();
    assert!(claims.acc);
    assert_eq!(claims.sub, "7f1c2a3e-0000-4000-8000-000000000001");
}

#[test]
fn login_unknown_user() {
    let form = LoginUser { username: String::from("bob"), password: String::from("pw") };
    let e = login_user(&conf(), &form, None).unwrap_err();
    assert_eq!(e.status(), 404);
    assert_eq!(e.body().error_type, AuthErrorType::UserNotExist);
}

#[test]
fn login_unreadable_hash_is_server_error() {
    let form = LoginUser { username: String::from("bob"), password: String::from("pw") };
    let e = login_user(&conf(), &form, Some(stored("bob", "plain", false))).unwrap_err();
    assert_eq!(e.body().error_type, AuthErrorType::ServerError);
    let e = check_password("pw", &stored("bob", "", false)).unwrap_err();
    assert_eq!(e.status(), 500);
}

#[test]
fn new_account_hashes_with_salt() {
    let a = new_account(registration("bob", "bob@x.com", "pw"), SALT).unwrap();
    let b = new_account(registration("bob", "bob@x.com", "pw"), SALT).unwrap();
    assert_eq!(a.username, "bob");
    assert_eq!(a.email, "bob@x.com");
    assert!(!a.is_admin);
    assert_ne!(a.password, "pw");
    assert_eq!(a.password.len(), 60);
    assert!(a.password.starts_with("$2b$12$"));
    assert_eq!(a.password, b.password);
    assert_eq!(a.uuid.len(), 36);
    for (i, c) in a.uuid.chars().enumerate() {
        if i == 8 || i == 13 || i == 18 || i == 23 {
            assert_eq!(c, '-');
        } else {
            assert!(c.is_ascii_digit() || ('a'..='f').contains(&c));
        }
    }
    assert_ne!(a.uuid, b.uuid);
    assert!(check_password("pw", &stored("bob", &a.password, false)).is_ok());
}

#[test]
fn account_from_needs_a_hash() {
    assert!(account_from(registration("a", "a@x.com", "p"), String::from("u"), None).is_none());
    let a = account_from(registration("a", "a@x.com", "p"), String::from("u"), Some(String::from("h"))).unwrap();
    assert_eq!((a.uuid.as_str(), a.username.as_str(), a.email.as_str(), a.password.as_str(), a.is_admin), ("u", "a", "a@x.com", "h", false));
}

#[test]
fn password_outcome_cases() {
    assert!(password_outcome(Some(true)).is_ok());
    assert_eq!(password_outcome(Some(false)).unwrap_err().body().error_type, AuthErrorType::WrongCredentials);
    assert_eq!(password_outcome(None).unwrap_err().body().error_type, AuthErrorType::ServerError);
}

#[test]
fn grant_session_keeps_status() {
    let config = conf();
    let g = grant_session(&config, stored("bob", "h", false), 200).unwrap();
    assert_eq!(g.status, 200);
    assert_eq!(g.user.username, "bob");
    let mut broken = conf();
    broken.lifetime = u64::MAX;
    let e = grant_session(&broken, stored("bob", "h", false), 200).unwrap_err();
    assert_eq!(e.body().error_type, AuthErrorType::TokenGeneration);
}

#[test]
fn token_exchange_keeps_subject() {
    let config = conf();
    let incoming = AuthRequestClaims {
        iss: String::from("dash"),
        sub: String::from("uuid-7"),
        aud: String::from("dash-users"),
        exp: 10,
        iat: 1,
    };
    let (status, token) = request_with_token(&config, &incoming).unwrap();
    assert_eq!(status, 201);
    assert_eq!(token.token_type, "Bearer");
    let fresh = AuthRequestClaims::from_string(&config, &token.token).unwrap();
    assert_eq!(fresh.sub, "uuid-7");
    assert_eq!(fresh.exp, fresh.iat + 600);
}

#[test]
fn user_info_answer() {
    let (status, info) = get_user_info(Some(stored("bob", "h", false))).unwrap();
    assert_eq!(status, 200);
    assert_eq!(info.username, "bob");
    let e = get_user_info(None).unwrap_err();
    assert_eq!(e.status(), 404);
}

#[test]
fn listing_needs_elevation() {
    let users = vec![UserInfo::new()];
    let e = get_all_user_info(&session(false), Some(users.clone())).unwrap_err();
    assert_eq!(e.status(), 403);
    assert_eq!(e.body().error_type, AuthErrorType::AccessDenied);
    let (status, listed) = get_all_user_info(&session(true), Some(users.clone())).unwrap();
    assert_eq!(status, 200);
    assert_eq!(listed, users);
    let e = get_all_user_info(&session(true), None).unwrap_err();
    assert_eq!(e.body().error_type, AuthErrorType::UserNotExist);
    assert!(require_elevated(&session(true)).is_ok());
    assert!(require_elevated(&session(false)).is_err());
}

#[test]
fn delete_answers() {
    assert_eq!(delete_user(&session(true), Some(String::from("t")), true).unwrap(), 200);
    let e = delete_user(&session(true), Some(String::from("t")), false).unwrap_err();
    assert_eq!(e.status(), 404);
    let e = delete_user(&session(true), None, true).unwrap_err();
    assert_eq!(e.body().error_type, AuthErrorType::ServerError);
    let e = delete_user(&session(false), None, true).unwrap_err();
    assert_eq!(e.body().error_type, AuthErrorType::ServerError);
    let e = delete_user(&session(false), Some(String::from("t")), true).unwrap_err();
    assert_eq!(e.body().error_type, AuthErrorType::AccessDenied);
    assert_eq!(authorize_delete(&session(true), Some(String::from("t"))).unwrap(), "t");
}

#[test]
fn grant_session_at_signs_claims_of_that_time() {
    let config = TokenConfig {
        secret: b"secret".to_vec(),
        issuer: String::from("i"),
        audience: String::from("a"),
        lifetime: 1,
    };
    let mut user = stored("bob", "h", true);
    user.uuid = String::from("s");
    let g = grant_session_at(&config, user, 201, 0).unwrap();
    assert_eq!(g.status, 201);
    assert_eq!(g.token.token_type, "Bearer");
    assert_eq!(g.user.username, "bob");
    let expected = AuthClaims {
        iss: String::from("i"),
        sub: String::from("s"),
        aud: String::from("a"),
        exp: 1,
        acc: true,
        iat: 0,
    };
    assert_eq!(g.token.token, expected.generate_token(&config).unwrap().token);
    let e = grant_session_at(&config, stored("bob", "h", true), 201, u64::MAX).unwrap_err();
    assert_eq!(e.body().error_type, AuthErrorType::TokenGeneration);
    assert!(grant_session_at(&config, stored("bob", "h", true), 201, u64::MAX - 1).is_ok());
}

#[test]
fn request_with_token_at_signs_claims_of_that_time() {
    let config = TokenConfig {
        secret: b"secret".to_vec(),
        issuer: String::from("i"),
        audience: String::from("a"),
        lifetime: 1,
    };
    let incoming = AuthRequestClaims {
        iss: String::from("other"),
        sub: String::from("s"),
        aud: String::from("other"),
        exp: 77,
        iat: 70,
    };
    let (status, token) = request_with_token_at(&config, &incoming, 1).unwrap();
    assert_eq!(status, 201);
    assert_eq!(token.token_type, "Bearer");
    let expected = AuthRequestClaims {
        iss: String::from("i"),
        sub: String::from("s"),
        aud: String::from("a"),
        exp: 2,
        iat: 1,
    };
    assert_eq!(token.token, expected.generate_token(&config).unwrap().token);
    let e = request_with_token_at(&config, &incoming, u64::MAX).unwrap_err();
    assert_eq!(e.body().error_type, AuthErrorType::TokenGeneration);
    assert_eq!(e.status(), 500);
}

#[test]
fn register_refuses_a_faulty_form_whatever_storage_said() {
    let config = conf();
    let user = || Ok(stored("alice", "h", false));
    let e = register_user(&config, &registration("alice", "alice@x.com", ""), user()).unwrap_err();
    assert_eq!(e.status(), 400);
    assert_eq!(e.body().error_type, AuthErrorType::MissingFields);
    let e = register_user(&config, &registration("", "alice@x.com", "secret1"), user()).unwrap_err();
    assert_eq!(e.body().error_type, AuthErrorType::MissingFields);
    let e = register_user(&config, &registration("alice", "alice-at-x", "secret1"), user()).unwrap_err();
    assert_eq!(e.status(), 400);
    assert_eq!(e.body().error_type, AuthErrorType::InvalidEmail);
    let e = register_user_at(&config, &registration("alice", "", "secret1"), user(), 5).unwrap_err();
    assert_eq!(e.body().error_type, AuthErrorType::MissingFields);
    let e = register_user(
        &config,
        &registration("alice", "", "secret1"),
        Err(String::from("duplicate key")),
    )
    .unwrap_err();
    assert_eq!(e.body().error_type, AuthErrorType::MissingFields);
}

#[test]
fn register_at_grants_the_token_of_that_time() {
    let config = conf();
    let form = registration("bob", "bob@x.com", "secret1");
    let g = register_user_at(&config, &form, Ok(stored("bob", "h", false)), 100).unwrap();
    assert_eq!(g.status, 201);
    assert!(!g.user.is_admin);
    let expected = AuthClaims {
        iss: String::from("dash"),
        sub: String::from("7f1c2a3e-0000-4000-8000-000000000001"),
        aud: String::from("dash-users"),
        exp: 700,
        acc: false,
        iat: 100,
    };
    assert_eq!(g.token.token, expected.generate_token(&config).unwrap().token);
    let e = register_user_at(&config, &form, Ok(stored("bob", "h", false)), u64::MAX).unwrap_err();
    assert_eq!(e.body().error_type, AuthErrorType::TokenGeneration);
    let e = register_user_at(&config, &form, Err(String::from("duplicate key")), 100).unwrap_err();
    assert_eq!(e.status(), 409);
}

#[test]
fn login_with_an_empty_field_is_wrong_credentials() {
    let config = conf();
    let form = LoginUser { username: String::from("bob"), password: String::new() };
    let e = login_user(&config, &form, None).unwrap_err();
    assert_eq!(e.status(), 401);
    assert_eq!(e.body().error_type, AuthErrorType::WrongCredentials);
    let e = login_user(&config, &form, Some(stored("bob", "h", false))).unwrap_err();
    assert_eq!(e.body().error_type, AuthErrorType::WrongCredentials);
    let form = LoginUser { username: String::new(), password: String::from("pw") };
    let e = login_user_at(&config, &form, None, 7).unwrap_err();
    assert_eq!(e.status(), 401);
}

#[test]
fn login_at_grants_the_token_of_that_time() {
    let config = conf();
    let account = new_account(registration("bob", "bob@x.com", "pw"), SALT).unwrap();
    let form = LoginUser { username: String::from("bob"), password: String::from("pw") };
    let g = login_user_at(&config, &form, Some(stored("bob", &account.password, true)), 40).unwrap();
    assert_eq!(g.status, 200);
    let expected = AuthClaims {
        iss: String::from("dash"),
        sub: String::from("7f1c2a3e-0000-4000-8000-000000000001"),
        aud: String::from("dash-users"),
        exp: 640,
        acc: true,
        iat: 40,
    };
    assert_eq!(g.token.token, expected.generate_token(&config).unwrap().token);
    let e = login_user_at(&config, &form, None, 40).unwrap_err();
    assert_eq!(e.status(), 404);
}
