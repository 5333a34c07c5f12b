//! Passwords and fresh accounts: what is settled before a record is stored
//! and when a stored record is matched against a login.

use vstd::prelude::*;
use vstd::string::*;
use crate::auth::{AuthError, AuthErrorType};
use crate::user::{RegisterUser, User};

verus! {

/// The failure of a `bcrypt` call, carried as an opaque value.
#[verifier::external_type_specification]
#[verifier::external_body]
pub struct ExHashFailure(bcrypt::BcryptError);

/// What `bcrypt` says of a password against a stored hash; `None` where it
/// cannot read the hash.
pub uninterp spec fn bcrypt_verdict(password: Seq<char>, hash: Seq<char>) -> Option<bool>;

/// The hash text `bcrypt` makes of a password at its default cost with a
/// given salt.
pub uninterp spec fn bcrypt_hashed(password: Seq<char>, salt: Seq<u8>) -> Option<Seq<char>>;

/// `bcrypt::verify`: whether a password gives the stored hash again.
#[verifier::external_body]
pub(crate) fn password_verify(password: &str, hash: &str) -> (r: Result<bool, bcrypt::BcryptError>)
    ensures
        r matches Ok(b) ==> bcrypt_verdict(password@, hash@) == Some(b),
        r is Err ==> bcrypt_verdict(password@, hash@) is None,
{
    bcrypt::verify(password, hash)
}

/// `bcrypt::hash_with_salt` at `bcrypt::DEFAULT_COST`, written out as text.
#[verifier::external_body]
pub(crate) fn password_hash(password: &str, salt: [u8; 16]) -> (r: Result<
    String,
    bcrypt::BcryptError,
>)
    ensures
        r matches Ok(h) ==> bcrypt_hashed(password@, salt@) == Some(h@),
        r is Err ==> bcrypt_hashed(password@, salt@) is None,
{
    bcrypt::hash_with_salt(password, bcrypt::DEFAULT_COST, salt).map(|parts| parts.to_string())
}

/// Whether a character is a decimal digit or a letter from `a` to `f`.
pub open spec fn is_lower_hex(c: char) -> bool {
    ('0' <= c && c <= '9') || ('a' <= c && c <= 'f')
}

/// Whether a text has the hyphenated form of an id: 36 characters, hyphens
/// after the 8th, 12th, 16th and 20th digit, lower-case hexadecimal digits
/// elsewhere.
pub open spec fn is_uuid_text(s: Seq<char>) -> bool {
    &&& s.len() == 36
    &&& forall|i: int|
        0 <= i < 36 ==> if i == 8 || i == 13 || i == 18 || i == 23 {
            #[trigger] s[i] == '-'
        } else {
            is_lower_hex(s[i])
        }
}

/// `Uuid::new_v4` of `uuid`, written out as text: a random id, of which only
/// the hyphenated lower-case form is claimed.
#[verifier::external_body]
pub(crate) fn fresh_uuid() -> (r: String)
    ensures
        is_uuid_text(r@),
{
    uuid::Uuid::new_v4().to_string()
}

/// A record that is ready to be stored.
#[derive(Clone, Debug)]
pub struct NewAccount {
    pub uuid: String,
    pub username: String,
    pub email: String,
    pub password: String,
    pub is_admin: bool,
}

/// Whether an account is what `form` asks for, with the password hashed under
/// `salt` and without privilege.
pub open spec fn account_of(account: NewAccount, form: RegisterUser, salt: Seq<u8>) -> bool {
    &&& account.username@ == form.username@
    &&& account.email@ == form.email@
    &&& bcrypt_hashed(form.password@, salt) == Some(account.password@)
    &&& !account.is_admin
}

/// The account for a registration with the id it was given and what hashing
/// its password gave: none where hashing failed.
pub fn account_from(form: RegisterUser, uuid: String, hashed: Option<String>) -> (r: Option<
    NewAccount,
>)
    ensures
        r is Some <==> hashed is Some,
        r matches Some(a) ==> a.uuid@ == uuid@ && a.username@ == form.username@ && a.email@
            == form.email@ && a.password@ == hashed->0@ && !a.is_admin,
{
    match hashed {
        Some(password) => Some(
            NewAccount {
                uuid,
                username: form.username,
                email: form.email,
                password,
                is_admin: false,
            },
        ),
        None => None,
    }
}

/// Prepares a registration for storage: a fresh id in hyphenated form, the
/// password hashed with the configured salt, no privilege.
pub fn new_account(form: RegisterUser, salt: [u8; 16]) -> (r: Option<NewAccount>)
    ensures
        r is Some <==> bcrypt_hashed(form.password@, salt@) is Some,
        r matches Some(a) ==> account_of(a, form, salt@) && is_uuid_text(a.uuid@),
{
    let hashed = match password_hash(form.password.as_str(), salt) {
        Ok(h) => Some(h),
        Err(_) => None,
    };
    let uuid = fresh_uuid();
    account_from(form, uuid, hashed)
}

/// What a login is answered with once the password was held against the
/// stored hash: nothing to object to, wrong credentials, or a server error
/// where the stored hash could not be read.
pub fn password_outcome(verdict: Option<bool>) -> (r: Result<(), AuthError>)
    ensures
        verdict == Some(true) <==> r is Ok,
        verdict == Some(false) ==> (r matches Err(e) && e.is_kind(AuthErrorType::WrongCredentials)),
        verdict is None ==> (r matches Err(e) && e.is_kind(AuthErrorType::ServerError)),
{
    match verdict {
        Some(true) => Ok(()),
        Some(false) => Err(AuthError::from_error_type(AuthErrorType::WrongCredentials)),
        None => Err(AuthError::from_error_type(AuthErrorType::ServerError)),
    }
}

/// Holds a password against a stored record.
pub fn check_password(password: &str, user: &User) -> (r: Result<(), AuthError>)
    ensures
        bcrypt_verdict(password@, user.password@) == Some(true) <==> r is Ok,
        bcrypt_verdict(password@, user.password@) == Some(false) ==> (r matches Err(e)
            && e.is_kind(AuthErrorType::WrongCredentials)),
        bcrypt_verdict(password@, user.password@) is None ==> (r matches Err(e) && e.is_kind(
            AuthErrorType::ServerError,
        )),
{
    let verdict = match password_verify(password, user.password.as_str()) {
        Ok(b) => Some(b),
        Err(_) => None,
    };
    password_outcome(verdict)
}

} // verus!
