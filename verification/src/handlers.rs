//! What each route decides once its outside work is done: the answers to
//! registration, login, token exchange, and the user queries.

use vstd::prelude::*;
use vstd::string::*;
use vstd::utf8::encode_utf8;
use crate::accounts::{bcrypt_verdict, check_password};
use crate::auth::{AuthError, AuthErrorType, AuthToken};
use crate::claims::{
    claim_numbers, claim_texts, AuthClaims, AuthRequestClaims, JWTClaims, TokenConfig,
};
use crate::codec::{current_timestamp, hs256_token};
use crate::user::{email_is_valid, email_well_formed, LoginUser, RegisterUser, User, UserInfo};

verus! {

/// Whether `needle` stands in `hay` at position `i`.
pub open spec fn occurs_at(hay: Seq<u8>, needle: Seq<u8>, i: int) -> bool {
    &&& 0 <= i
    &&& i + needle.len() <= hay.len()
    &&& hay.subrange(i, i + needle.len()) == needle
}

/// Whether `needle` stands somewhere in `hay`.
pub open spec fn contains_bytes(hay: Seq<u8>, needle: Seq<u8>) -> bool {
    exists|i: int| occurs_at(hay, needle, i)
}

fn matches_at(hay: &[u8], needle: &[u8], i: usize) -> (r: bool)
    requires
        i + needle@.len() <= hay@.len(),
    ensures
        r == occurs_at(hay@, needle@, i as int),
{
    let total: usize = hay.len();
    let mut j: usize = 0;
    while j < needle.len()
        invariant
            j <= needle@.len(),
            i + needle@.len() <= hay@.len(),
            hay@.len() == total,
            forall|k: int| 0 <= k < j ==> hay@[i + k] == needle@[k],
        decreases needle@.len() - j,
    {
        if hay[i + j] != needle[j] {
            proof {
                assert(hay@.subrange(i as int, i + needle@.len())[j as int] == hay@[i + j]);
            }
            return false;
        }
        j += 1;
    }
    proof {
        assert(hay@.subrange(i as int, i + needle@.len()) =~= needle@);
    }
    true
}

/// Searches `hay` for `needle`.
pub fn find_bytes(hay: &[u8], needle: &[u8]) -> (r: bool)
    ensures
        r == contains_bytes(hay@, needle@),
{
    if needle.len() > hay.len() {
        return false;
    }
    let last: usize = hay.len() - needle.len();
    let mut i: usize = 0;
    loop
        invariant
            last == hay@.len() - needle@.len(),
            i <= last,
            forall|k: int| 0 <= k < i ==> !occurs_at(hay@, needle@, k),
        decreases last - i,
    {
        if matches_at(hay, needle, i) {
            return true;
        }
        if i == last {
            return false;
        }
        i += 1;
    }
}

/// The kind of failure that a storage error on insert stands for: a message
/// that speaks of a duplicate key means the user exists; anything else is a
/// server error.
pub open spec fn insert_failure_kind(message: Seq<char>) -> AuthErrorType {
    if contains_bytes(encode_utf8(message), encode_utf8("duplicate key"@)) {
        AuthErrorType::UserExists
    } else {
        AuthErrorType::ServerError
    }
}

/// Maps a storage error on insert to its kind of failure.
pub fn classify_insert_failure(message: &str) -> (r: AuthError)
    ensures
        r.is_kind(insert_failure_kind(message@)),
{
    if find_bytes(message.as_bytes(), "duplicate key".as_bytes()) {
        AuthError::from_error_type(AuthErrorType::UserExists)
    } else {
        AuthError::from_error_type(AuthErrorType::ServerError)
    }
}

/// What is wrong with a registration form, if anything: an empty field comes
/// before a malformed address.
pub open spec fn registration_fault(form: RegisterUser) -> Option<AuthErrorType> {
    if form.username@.len() == 0 || form.email@.len() == 0 || form.password@.len() == 0 {
        Some(AuthErrorType::MissingFields)
    } else if !email_well_formed(form.email@) {
        Some(AuthErrorType::InvalidEmail)
    } else {
        None
    }
}

/// Checks a registration form before anything is stored.
pub fn check_registration(form: &RegisterUser) -> (r: Result<(), AuthError>)
    ensures
        r is Ok <==> registration_fault(*form) is None,
        r matches Err(e) ==> e.is_kind(registration_fault(*form)->0),
{
    if form.username.as_str().is_empty() || form.email.as_str().is_empty()
        || form.password.as_str().is_empty() {
        return Err(AuthError::from_error_type(AuthErrorType::MissingFields));
    }
    if !email_is_valid(form.email.as_str()) {
        return Err(AuthError::from_error_type(AuthErrorType::InvalidEmail));
    }
    Ok(())
}

/// A successful answer that carries a fresh token and the public identity.
#[derive(Clone, Debug)]
pub struct Granted {
    pub status: u16,
    pub token: AuthToken,
    pub user: UserInfo,
}

/// Whether `info` is the public part of `user`.
pub open spec fn public_part(info: UserInfo, user: User) -> bool {
    &&& info.uuid@ == user.uuid@
    &&& info.username@ == user.username@
    &&& info.is_admin == user.is_admin
}

/// The signed token of session claims issued under `config` for `user` at
/// `now`: subject and privilege are the user's, and the expiry is the
/// configured lifetime after `now`.
pub open spec fn session_token_at(config: &TokenConfig, user: User, now: u64) -> Option<Seq<char>> {
    hs256_token(
        claim_texts(config.issuer@, user.uuid@, config.audience@),
        claim_numbers((now + config.lifetime) as u64, now),
        Map::<Seq<char>, bool>::empty().insert("acc"@, user.is_admin),
        config.secret@,
    )
}

/// The signed token of request claims issued under `config` for `subject` at
/// `now`.
pub open spec fn request_token_at(config: &TokenConfig, subject: Seq<char>, now: u64) -> Option<
    Seq<char>,
> {
    hs256_token(
        claim_texts(config.issuer@, subject, config.audience@),
        claim_numbers((now + config.lifetime) as u64, now),
        Map::<Seq<char>, bool>::empty(),
        config.secret@,
    )
}

/// Whether `r` is the answer that grants `user` a session at `now`: `status`,
/// the signed token of the session claims and the public identity; a failure
/// to generate where the expiry does not fit or signing gives no token, and
/// only there.
pub open spec fn granted_at(
    config: &TokenConfig,
    user: User,
    status: u16,
    now: u64,
    r: Result<Granted, AuthError>,
) -> bool {
    if now + config.lifetime > u64::MAX {
        r matches Err(e) && e.is_kind(AuthErrorType::TokenGeneration)
    } else {
        match session_token_at(config, user, now) {
            Some(text) => r matches Ok(g) && g.status == status && g.token.token@ == text
                && g.token.token_type@ == "Bearer"@ && public_part(g.user, user),
            None => r matches Err(e) && e.is_kind(AuthErrorType::TokenGeneration),
        }
    }
}

/// Mints session claims for a stored user at `now` and answers with `status`,
/// the signed token and the public identity.
pub fn grant_session_at(config: &TokenConfig, user: User, status: u16, now: u64) -> (r: Result<
    Granted,
    AuthError,
>)
    ensures
        granted_at(config, user, status, now, r),
{
    let claims = match AuthClaims::issue_at(config, &user, now) {
        Ok(c) => c,
        Err(e) => {
            return Err(e);
        },
    };
    proof {
        assert(claims.text_members() == claim_texts(
            config.issuer@,
            user.uuid@,
            config.audience@,
        ));
    }
    match claims.generate_token(config) {
        Ok(token) => Ok(Granted { status, token, user: UserInfo::from_user(user) }),
        Err(e) => Err(e),
    }
}

/// Mints session claims for a stored user now and answers with `status`, the
/// signed token and the public identity.
pub fn grant_session(config: &TokenConfig, user: User, status: u16) -> (r: Result<
    Granted,
    AuthError,
>)
    ensures
        exists|now: u64| #[trigger] granted_at(config, user, status, now, r),
{
    let now: u64 = current_timestamp();
    let r = grant_session_at(config, user, status, now);
    proof {
        assert(granted_at(config, user, status, now, r));
    }
    r
}

/// Whether `r` is the answer to a registration at `now`: a faulty form is
/// refused whatever storage said; a storage error is mapped; a stored user is
/// granted a session with `201`.
pub open spec fn registered_at(
    config: &TokenConfig,
    form: RegisterUser,
    stored: Result<User, String>,
    now: u64,
    r: Result<Granted, AuthError>,
) -> bool {
    match registration_fault(form) {
        Some(kind) => r matches Err(e) && e.is_kind(kind),
        None => match stored {
            Err(message) => r matches Err(e) && e.is_kind(insert_failure_kind(message@)),
            Ok(user) => granted_at(config, user, 201, now, r),
        },
    }
}

/// The answer to a registration at `now`, for a form and what storage said of
/// it.
pub fn register_user_at(
    config: &TokenConfig,
    form: &RegisterUser,
    stored: Result<User, String>,
    now: u64,
) -> (r: Result<Granted, AuthError>)
    ensures
        registered_at(config, *form, stored, now, r),
{
    match check_registration(form) {
        Err(e) => Err(e),
        Ok(_) => match stored {
            Err(message) => Err(classify_insert_failure(message.as_str())),
            Ok(user) => grant_session_at(config, user, 201, now),
        },
    }
}

/// The answer to a registration: a form with an empty field or a malformed
/// address is refused whatever storage said; otherwise `201` with a session
/// token for the new user, or the failure that the storage error stands for.
pub fn register_user(config: &TokenConfig, form: &RegisterUser, stored: Result<User, String>) -> (r:
    Result<Granted, AuthError>)
    ensures
        exists|now: u64| #[trigger] registered_at(config, *form, stored, now, r),
{
    let now: u64 = current_timestamp();
    let r = register_user_at(config, form, stored, now);
    proof {
        assert(registered_at(config, *form, stored, now, r));
    }
    r
}

/// Checks a login form before anything is looked up: both fields are needed.
pub fn check_login(form: &LoginUser) -> (r: Result<(), AuthError>)
    ensures
        r is Ok <==> (form.username@.len() > 0 && form.password@.len() > 0),
        r matches Err(e) ==> e.is_kind(AuthErrorType::WrongCredentials),
{
    if form.username.as_str().is_empty() || form.password.as_str().is_empty() {
        Err(AuthError::from_error_type(AuthErrorType::WrongCredentials))
    } else {
        Ok(())
    }
}

/// Whether `r` is the answer to a login at `now`: a form with an empty field
/// gives wrong credentials whatever was looked up; then an unknown user, a
/// wrong password and an unreadable hash each give their failure; a matching
/// password is granted a session with `200`.
pub open spec fn logged_in_at(
    config: &TokenConfig,
    form: LoginUser,
    lookup: Option<User>,
    now: u64,
    r: Result<Granted, AuthError>,
) -> bool {
    if form.username@.len() == 0 || form.password@.len() == 0 {
        r matches Err(e) && e.is_kind(AuthErrorType::WrongCredentials)
    } else {
        match lookup {
            None => r matches Err(e) && e.is_kind(AuthErrorType::UserNotExist),
            Some(user) => match bcrypt_verdict(form.password@, user.password@) {
                Some(true) => granted_at(config, user, 200, now, r),
                Some(false) => r matches Err(e) && e.is_kind(AuthErrorType::WrongCredentials),
                None => r matches Err(e) && e.is_kind(AuthErrorType::ServerError),
            },
        }
    }
}

/// The answer to a login at `now`, for a form and what the lookup found.
pub fn login_user_at(config: &TokenConfig, form: &LoginUser, lookup: Option<User>, now: u64) -> (r:
    Result<Granted, AuthError>)
    ensures
        logged_in_at(config, *form, lookup, now, r),
{
    match check_login(form) {
        Err(e) => Err(e),
        Ok(_) => match lookup {
            None => Err(AuthError::from_error_type(AuthErrorType::UserNotExist)),
            Some(user) => match check_password(form.password.as_str(), &user) {
                Err(e) => Err(e),
                Ok(_) => grant_session_at(config, user, 200, now),
            },
        },
    }
}

/// The answer to a login: a form with an empty field gives wrong credentials
/// whatever was looked up; otherwise `200` with a session token where the
/// password matches the stored hash.
pub fn login_user(config: &TokenConfig, form: &LoginUser, lookup: Option<User>) -> (r: Result<
    Granted,
    AuthError,
>)
    ensures
        exists|now: u64| #[trigger] logged_in_at(config, *form, lookup, now, r),
{
    let now: u64 = current_timestamp();
    let r = login_user_at(config, form, lookup, now);
    proof {
        assert(logged_in_at(config, *form, lookup, now, r));
    }
    r
}

/// Whether `r` is the answer to a token exchange at `now`: `201` with the
/// signed token of fresh request claims for `subject`; a failure to generate
/// where the expiry does not fit or signing gives no token, and only there.
pub open spec fn exchanged_at(
    config: &TokenConfig,
    subject: Seq<char>,
    now: u64,
    r: Result<(u16, AuthToken), AuthError>,
) -> bool {
    if now + config.lifetime > u64::MAX {
        r matches Err(e) && e.is_kind(AuthErrorType::TokenGeneration)
    } else {
        match request_token_at(config, subject, now) {
            Some(text) => r matches Ok(g) && g.0 == 201 && g.1.token@ == text && g.1.token_type@
                == "Bearer"@,
            None => r matches Err(e) && e.is_kind(AuthErrorType::TokenGeneration),
        }
    }
}

/// The answer to a token exchange at `now`: `201` with fresh request claims
/// for the subject of the claims that came in.
pub fn request_with_token_at(config: &TokenConfig, claims: &AuthRequestClaims, now: u64) -> (r:
    Result<(u16, AuthToken), AuthError>)
    ensures
        exchanged_at(config, claims.sub@, now, r),
{
    let fresh = match AuthRequestClaims::issue_at(config, claims.sub.clone(), now) {
        Ok(c) => c,
        Err(e) => {
            return Err(e);
        },
    };
    proof {
        assert(fresh.text_members() == claim_texts(
            config.issuer@,
            claims.sub@,
            config.audience@,
        ));
    }
    match fresh.generate_token(config) {
        Ok(token) => Ok((201, token)),
        Err(e) => Err(e),
    }
}

/// The answer to a token exchange: `201` with fresh request claims for the
/// subject of the claims that came in.
pub fn request_with_token(config: &TokenConfig, claims: &AuthRequestClaims) -> (r: Result<
    (u16, AuthToken),
    AuthError,
>)
    ensures
        exists|now: u64| #[trigger] exchanged_at(config, claims.sub@, now, r),
{
    let now: u64 = current_timestamp();
    let r = request_with_token_at(config, claims, now);
    proof {
        assert(exchanged_at(config, claims.sub@, now, r));
    }
    r
}

/// The answer to a caller who asks for their own record.
pub fn get_user_info(lookup: Option<User>) -> (r: Result<(u16, UserInfo), AuthError>)
    ensures
        r is Ok <==> lookup is Some,
        r matches Ok(g) ==> g.0 == 200 && public_part(g.1, lookup->0),
        r matches Err(e) ==> e.is_kind(AuthErrorType::UserNotExist),
{
    match lookup {
        Some(user) => Ok((200, UserInfo::from_user(user))),
        None => Err(AuthError::from_error_type(AuthErrorType::UserNotExist)),
    }
}

/// Lets only elevated sessions through.
pub fn require_elevated(claims: &AuthClaims) -> (r: Result<(), AuthError>)
    ensures
        r is Ok <==> claims.acc,
        r matches Err(e) ==> e.is_kind(AuthErrorType::AccessDenied),
{
    if claims.acc {
        Ok(())
    } else {
        Err(AuthError::from_error_type(AuthErrorType::AccessDenied))
    }
}

/// The answer to a listing of all users, once storage has answered: only for
/// elevated sessions.
pub fn get_all_user_info(claims: &AuthClaims, listing: Option<Vec<UserInfo>>) -> (r: Result<
    (u16, Vec<UserInfo>),
    AuthError,
>)
    ensures
        r is Ok <==> (claims.acc && listing is Some),
        r matches Ok(g) ==> g.0 == 200 && g.1 == listing->0,
        r matches Err(e) ==> e.is_kind(
            if claims.acc {
                AuthErrorType::UserNotExist
            } else {
                AuthErrorType::AccessDenied
            },
        ),
{
    match require_elevated(claims) {
        Err(e) => Err(e),
        Ok(_) => match listing {
            Some(users) => Ok((200, users)),
            None => Err(AuthError::from_error_type(AuthErrorType::UserNotExist)),
        },
    }
}

/// Whether a deletion may go ahead, and for which id: a request without a
/// readable target is a server error; after that only elevated sessions pass.
pub fn authorize_delete(claims: &AuthClaims, target: Option<String>) -> (r: Result<
    String,
    AuthError,
>)
    ensures
        r is Ok <==> (target is Some && claims.acc),
        r matches Ok(uuid) ==> uuid@ == target->0@,
        r matches Err(e) ==> e.is_kind(
            if target is None {
                AuthErrorType::ServerError
            } else {
                AuthErrorType::AccessDenied
            },
        ),
{
    match target {
        None => Err(AuthError::from_error_type(AuthErrorType::ServerError)),
        Some(uuid) => match require_elevated(claims) {
            Err(e) => Err(e),
            Ok(_) => Ok(uuid),
        },
    }
}

/// The answer to a deletion: `200` where the target was authorised and
/// storage removed it.
pub fn delete_user(claims: &AuthClaims, target: Option<String>, removed: bool) -> (r: Result<
    u16,
    AuthError,
>)
    ensures
        r is Ok <==> (target is Some && claims.acc && removed),
        r matches Ok(status) ==> status == 200,
        r matches Err(e) ==> e.is_kind(
            if target is None {
                AuthErrorType::ServerError
            } else if !claims.acc {
                AuthErrorType::AccessDenied
            } else {
                AuthErrorType::UserNotExist
            },
        ),
{
    match authorize_delete(claims, target) {
        Err(e) => Err(e),
        Ok(_) => if removed {
            Ok(200)
        } else {
            Err(AuthError::from_error_type(AuthErrorType::UserNotExist))
        },
    }
}

} // verus!
