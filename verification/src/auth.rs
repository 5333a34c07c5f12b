//! Bearer tokens and the fixed catalogue of authentication failures.

use vstd::prelude::*;
use vstd::string::*;

verus! {

/// A signed identity token together with its scheme label, which is always
/// `Bearer`.
#[derive(Clone, Debug)]
pub struct AuthToken {
    pub token: String,
    pub token_type: String,
}

impl AuthToken {
    /// Wraps a signed string as a `Bearer` token.
    pub fn new(token: String) -> (r: Self)
        ensures
            r.token@ == token@,
            r.token_type@ == "Bearer"@,
    {
        Self { token, token_type: String::from_str("Bearer") }
    }

    /// The token without a signed string yet; its scheme is `Bearer` all the
    /// same.
    pub fn default() -> (r: Self)
        ensures
            r.token@ == Seq::<char>::empty(),
            r.token_type@ == "Bearer"@,
    {
        Self { token: String::new(), token_type: String::from_str("Bearer") }
    }

    /// Same as [`AuthToken::new`].
    pub fn from_string(string: String) -> (r: Self)
        ensures
            r.token@ == string@,
            r.token_type@ == "Bearer"@,
    {
        Self { token: string, token_type: String::from_str("Bearer") }
    }

    /// The value of the `Authorization` header for this token: the scheme, a
    /// space and the signed string.
    pub fn authorization(&self) -> (r: String)
        ensures
            r@ == self.token_type@ + " "@ + self.token@,
    {
        self.token_type.clone().concat(" ").concat(self.token.as_str())
    }

    /// Gives the signed string back and drops the scheme label.
    pub fn to_string(self) -> (r: String)
        ensures
            r@ == self.token@,
    {
        self.token
    }
}

/// The kinds of failure a caller can be told about.
#[derive(Clone, Copy, Debug, PartialEq, Eq, Structural)]
pub enum AuthErrorType {
    ServerError,
    AccessDenied,
    UserNotExist,
    UserExists,
    MissingFields,
    InvalidEmail,
    WrongCredentials,
    InvalidToken,
    TokenGeneration,
}

/// The transport status that belongs to a kind of failure.
pub open spec fn status_code(error_type: AuthErrorType) -> u16 {
    match error_type {
        AuthErrorType::ServerError => 500,
        AuthErrorType::AccessDenied => 403,
        AuthErrorType::UserNotExist => 404,
        AuthErrorType::UserExists => 409,
        AuthErrorType::MissingFields => 400,
        AuthErrorType::InvalidEmail => 400,
        AuthErrorType::WrongCredentials => 401,
        AuthErrorType::InvalidToken => 403,
        AuthErrorType::TokenGeneration => 500,
    }
}

/// The human-readable message that belongs to a kind of failure.
pub open spec fn message_text(error_type: AuthErrorType) -> Seq<char> {
    match error_type {
        AuthErrorType::ServerError => "Server error"@,
        AuthErrorType::AccessDenied => "Access denied"@,
        AuthErrorType::UserNotExist => "User does not exist"@,
        AuthErrorType::UserExists => "User already exists"@,
        AuthErrorType::MissingFields => "Missing required fields"@,
        AuthErrorType::InvalidEmail => "Invalid email address"@,
        AuthErrorType::WrongCredentials => "Wrong credentials"@,
        AuthErrorType::InvalidToken => "Invalid token"@,
        AuthErrorType::TokenGeneration => "Token generation error"@,
    }
}

/// The structured body sent with a failure.
#[derive(Clone, Debug)]
pub struct AuthErrorBody {
    pub error_type: AuthErrorType,
    pub message: String,
}

/// A failure with its transport status.
#[derive(Clone, Debug)]
pub struct AuthError {
    pub status: u16,
    pub body: AuthErrorBody,
}

impl AuthError {
    /// Whether this value is the catalogue's entry for `error_type`.
    pub open spec fn is_kind(&self, error_type: AuthErrorType) -> bool {
        &&& self.status == status_code(error_type)
        &&& self.body.error_type == error_type
        &&& self.body.message@ == message_text(error_type)
    }

    /// The failure to fall back on: the catalogue's server error.
    pub fn default() -> (r: Self)
        ensures
            r.is_kind(AuthErrorType::ServerError),
    {
        Self::from_error_type(AuthErrorType::ServerError)
    }

    /// Looks a kind of failure up in the catalogue.
    pub fn from_error_type(error_type: AuthErrorType) -> (r: Self)
        ensures
            r.is_kind(error_type),
    {
        let (status, message): (u16, String) = match error_type {
            AuthErrorType::ServerError => (500, String::from_str("Server error")),
            AuthErrorType::AccessDenied => (403, String::from_str("Access denied")),
            AuthErrorType::UserNotExist => (404, String::from_str("User does not exist")),
            AuthErrorType::UserExists => (409, String::from_str("User already exists")),
            AuthErrorType::MissingFields => (400, String::from_str("Missing required fields")),
            AuthErrorType::InvalidEmail => (400, String::from_str("Invalid email address")),
            AuthErrorType::WrongCredentials => (401, String::from_str("Wrong credentials")),
            AuthErrorType::InvalidToken => (403, String::from_str("Invalid token")),
            AuthErrorType::TokenGeneration => (500, String::from_str("Token generation error")),
        };
        Self { status, body: AuthErrorBody { error_type, message } }
    }

    /// The transport status.
    pub fn status(&self) -> (r: u16)
        ensures
            r == self.status,
    {
        self.status
    }

    /// A copy of the body.
    pub fn body(&self) -> (r: AuthErrorBody)
        ensures
            r.error_type == self.body.error_type,
            r.message@ == self.body.message@,
    {
        AuthErrorBody { error_type: self.body.error_type, message: self.body.message.clone() }
    }
}

/// Two lookups of one kind of failure agree in status, tag and message.
pub proof fn failure_mapping_is_fixed(a: AuthError, b: AuthError, error_type: AuthErrorType)
    requires
        a.is_kind(error_type),
        b.is_kind(error_type),
    ensures
        a.status == b.status,
        a.body.error_type == b.body.error_type,
        a.body.message@ == b.body.message@,
{
}

} // verus!
