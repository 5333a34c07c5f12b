//! The two kinds of claims, how they are issued, signed and verified.

use vstd::prelude::*;
use vstd::string::*;
use crate::auth::{AuthError, AuthErrorType, AuthToken};
use crate::codec::{
    current_timestamp, hs256_payload, hs256_token, json_flag, json_flags, json_holds, json_is_flat,
    json_number, json_numbers, json_object, json_put_flag, json_put_number, json_put_text,
    json_strings, json_text, resigned, sign_hs256, sole_signature, token_holds, hs256_signed,
    verify_hs256,
};
use crate::trust::{
    carried_document, header_text, read_document, reads_back, write_document, HeaderEntry,
};
use crate::user::User;

verus! {

/// Clock skew, in seconds, that verification tolerates.
pub const LEEWAY_SECONDS: u64 = 5;

/// What issuing and verifying need to know, fixed when the process starts.
#[derive(Clone, Debug)]
pub struct TokenConfig {
    pub secret: Vec<u8>,
    pub issuer: String,
    pub audience: String,
    pub lifetime: u64,
}

/// The six member names of a claims document differ from each other.
pub proof fn lemma_member_names_differ()
    ensures
        "iss"@ != "sub"@,
        "iss"@ != "aud"@,
        "iss"@ != "exp"@,
        "iss"@ != "acc"@,
        "iss"@ != "iat"@,
        "sub"@ != "aud"@,
        "sub"@ != "exp"@,
        "sub"@ != "acc"@,
        "sub"@ != "iat"@,
        "aud"@ != "exp"@,
        "aud"@ != "acc"@,
        "aud"@ != "iat"@,
        "exp"@ != "acc"@,
        "exp"@ != "iat"@,
        "acc"@ != "iat"@,
{
    reveal_strlit("iss");
    reveal_strlit("sub");
    reveal_strlit("aud");
    reveal_strlit("exp");
    reveal_strlit("acc");
    reveal_strlit("iat");
    assert("iss"@[0] == 'i' && "iss"@[1] == 's');
    assert("sub"@[0] == 's' && "sub"@[1] == 'u');
    assert("aud"@[0] == 'a' && "aud"@[1] == 'u');
    assert("exp"@[0] == 'e' && "exp"@[1] == 'x');
    assert("acc"@[0] == 'a' && "acc"@[1] == 'c');
    assert("iat"@[0] == 'i' && "iat"@[1] == 'a');
}

/// Whether a document has exactly the members of `claims`.
pub open spec fn held_by<T: JWTClaims>(claims: &T, v: serde_json::Value) -> bool {
    json_holds(v, claims.text_members(), claims.number_members(), claims.flag_members())
}

/// The signed token of `claims` under a secret, if signing gives one.
pub open spec fn signed_text<T: JWTClaims>(claims: &T, secret: Seq<u8>) -> Option<Seq<char>> {
    hs256_token(claims.text_members(), claims.number_members(), claims.flag_members(), secret)
}

/// The string members of a claims document.
pub open spec fn claim_texts(iss: Seq<char>, sub: Seq<char>, aud: Seq<char>) -> Map<
    Seq<char>,
    Seq<char>,
> {
    Map::<Seq<char>, Seq<char>>::empty().insert("iss"@, iss).insert("sub"@, sub).insert("aud"@, aud)
}

/// The number members of a claims document.
pub open spec fn claim_numbers(exp: u64, iat: u64) -> Map<Seq<char>, u64> {
    Map::<Seq<char>, u64>::empty().insert("exp"@, exp).insert("iat"@, iat)
}

/// What both kinds of claims can do: be written as a document and read back,
/// be signed into a token and verified out of one.
pub trait JWTClaims: Sized {
    /// The issuer the claims name.
    spec fn issuer(&self) -> Seq<char>;

    /// The audience the claims name.
    spec fn audience(&self) -> Seq<char>;

    /// The string members of the claims document.
    spec fn text_members(&self) -> Map<Seq<char>, Seq<char>>;

    /// The number members of the claims document.
    spec fn number_members(&self) -> Map<Seq<char>, u64>;

    /// The boolean members of the claims document.
    spec fn flag_members(&self) -> Map<Seq<char>, bool>;

    /// Whether a document holds every member of such claims with its type.
    spec fn readable_from(v: serde_json::Value) -> bool;

    /// Whether the claims hold what the document's members hold.
    spec fn read_from(&self, v: serde_json::Value) -> bool;

    /// The claims document.
    fn to_json(&self) -> (v: serde_json::Value)
        ensures
            json_is_flat(v),
            json_holds(v, self.text_members(), self.number_members(), self.flag_members()),
    ;

    /// Reads claims out of a document; members that the claims do not have
    /// are ignored.
    fn from_json(v: &serde_json::Value) -> (r: Option<Self>)
        ensures
            r is Some <==> Self::readable_from(*v),
            r matches Some(c) ==> c.read_from(*v) && json_strings(*v).contains_key("iss"@)
                && json_strings(*v).contains_key("aud"@) && c.issuer() == json_strings(*v)["iss"@]
                && c.audience() == json_strings(*v)["aud"@],
    ;

    /// Verifies a signed token: signature, issuer, audience and expiry, with
    /// [`LEEWAY_SECONDS`] of tolerance. Every failure is the same failure.
    fn from_string(config: &TokenConfig, encoded_str: &str) -> (r: Result<Self, AuthError>)
        ensures
            r matches Ok(c) ==> hs256_payload(encoded_str@, config.secret@) matches Some(d)
                && Self::readable_from(d) && c.read_from(d),
            r matches Ok(c) ==> c.issuer() == config.issuer@ && c.audience() == config.audience@,
            r matches Err(e) ==> e.is_kind(AuthErrorType::InvalidToken),
    {
        match verify_hs256(
            encoded_str,
            config.secret.as_slice(),
            config.issuer.as_str(),
            config.audience.as_str(),
            LEEWAY_SECONDS,
        ) {
            Ok(v) => match Self::from_json(&v) {
                Some(claims) => Ok(claims),
                None => Err(AuthError::from_error_type(AuthErrorType::InvalidToken)),
            },
            Err(_) => Err(AuthError::from_error_type(AuthErrorType::InvalidToken)),
        }
    }

    /// Signs the claims: a `Bearer` token that holds the HS256 token of the
    /// claims document under the configured secret, which the claims' fields
    /// and the secret decide; a failure to generate where there is none.
    fn generate_token(&self, config: &TokenConfig) -> (r: Result<AuthToken, AuthError>)
        ensures
            match hs256_token(
                self.text_members(),
                self.number_members(),
                self.flag_members(),
                config.secret@,
            ) {
                Some(text) => r matches Ok(t) && t.token@ == text && t.token_type@ == "Bearer"@,
                None => r matches Err(e) && e.is_kind(AuthErrorType::TokenGeneration),
            },
            r matches Ok(t) ==> token_holds(
                t.token@,
                config.secret@,
                self.text_members(),
                self.number_members(),
                self.flag_members(),
            ) && sole_signature(t.token@, config.secret@),
    {
        let v = self.to_json();
        match sign_hs256(&v, config.secret.as_slice()) {
            Ok(encoded_string) => Ok(AuthToken::new(encoded_string)),
            Err(_) => Err(AuthError::from_error_type(AuthErrorType::TokenGeneration)),
        }
    }

    /// The value of the internal trust header for these claims: the base64
    /// text of the claims document's JSON text. Decoded again, it is a
    /// document with the claims' members.
    fn header_value(&self) -> (r: String)
        ensures
            r@ == header_text(self.text_members(), self.number_members(), self.flag_members()),
            reads_back(r@, self.text_members(), self.number_members(), self.flag_members()),
    {
        let v = self.to_json();
        write_document(&v)
    }

    /// Reads the claims off the internal trust header, without any signature
    /// check. `None` where the header is missing or does not decode.
    fn from_header(headers: &Vec<HeaderEntry>) -> (r: Option<Self>)
        ensures
            match carried_document(headers@) {
                None => r is None,
                Some(v) => (r is Some <==> Self::readable_from(v)) && (r matches Some(c)
                    ==> c.read_from(v)),
            },
    {
        match read_document(headers) {
            None => None,
            Some(v) => Self::from_json(&v),
        }
    }
}

/// Lightweight claims: who a call acts for, without a privilege level.
#[derive(Clone, Debug)]
pub struct AuthRequestClaims {
    pub iss: String,
    pub sub: String,
    pub aud: String,
    pub exp: u64,
    pub iat: u64,
}

impl AuthRequestClaims {
    /// Whether the claims were issued under `config` for `uuid` at `now`.
    pub open spec fn issued(&self, config: &TokenConfig, uuid: Seq<char>, now: u64) -> bool {
        &&& self.iss@ == config.issuer@
        &&& self.sub@ == uuid
        &&& self.aud@ == config.audience@
        &&& self.exp == now + config.lifetime
        &&& self.iat == now
    }

    /// Claims for `uuid` issued at `now`, unless the expiry would not fit.
    pub fn issue_at(config: &TokenConfig, uuid: String, now: u64) -> (r: Result<Self, AuthError>)
        ensures
            now + config.lifetime <= u64::MAX ==> (r matches Ok(c) && c.issued(config, uuid@, now)),
            now + config.lifetime > u64::MAX ==> (r matches Err(e) && e.is_kind(
                AuthErrorType::TokenGeneration,
            )),
    {
        match now.checked_add(config.lifetime) {
            Some(exp) => Ok(
                Self {
                    iss: config.issuer.clone(),
                    sub: uuid,
                    aud: config.audience.clone(),
                    exp,
                    iat: now,
                },
            ),
            None => Err(AuthError::from_error_type(AuthErrorType::TokenGeneration)),
        }
    }

    /// Claims for `uuid` issued now. The caller has resolved the id already.
    pub fn new(config: &TokenConfig, uuid: String) -> (r: Result<Self, AuthError>)
        ensures
            r matches Ok(c) ==> c.issued(config, uuid@, c.iat),
            r matches Err(e) ==> e.is_kind(AuthErrorType::TokenGeneration),
    {
        let now: u64 = current_timestamp();
        Self::issue_at(config, uuid, now)
    }

    /// Claims from the members read out of a document: all five are needed.
    pub fn from_fields(
        iss: Option<String>,
        sub: Option<String>,
        aud: Option<String>,
        exp: Option<u64>,
        iat: Option<u64>,
    ) -> (r: Option<Self>)
        ensures
            r is Some <==> (iss is Some && sub is Some && aud is Some && exp is Some && iat is Some),
            r matches Some(c) ==> c.iss@ == iss->0@ && c.sub@ == sub->0@ && c.aud@ == aud->0@
                && c.exp == exp->0 && c.iat == iat->0,
    {
        match (iss, sub, aud, exp, iat) {
            (Some(iss), Some(sub), Some(aud), Some(exp), Some(iat)) => Some(
                Self { iss, sub, aud, exp, iat },
            ),
            _ => None,
        }
    }
}

impl JWTClaims for AuthRequestClaims {
    open spec fn issuer(&self) -> Seq<char> {
        self.iss@
    }

    open spec fn audience(&self) -> Seq<char> {
        self.aud@
    }

    open spec fn text_members(&self) -> Map<Seq<char>, Seq<char>> {
        claim_texts(self.iss@, self.sub@, self.aud@)
    }

    open spec fn number_members(&self) -> Map<Seq<char>, u64> {
        claim_numbers(self.exp, self.iat)
    }

    open spec fn flag_members(&self) -> Map<Seq<char>, bool> {
        Map::<Seq<char>, bool>::empty()
    }

    /// The claims document.
    fn to_json(&self) -> (v: serde_json::Value) {
        let mut v = json_object();
        json_put_text(&mut v, "iss", self.iss.as_str());
        json_put_text(&mut v, "sub", self.sub.as_str());
        json_put_text(&mut v, "aud", self.aud.as_str());
        proof {
            assert(json_numbers(v) =~= Map::<Seq<char>, u64>::empty());
            assert(json_flags(v) =~= Map::<Seq<char>, bool>::empty());
        }
        json_put_number(&mut v, "exp", self.exp);
        json_put_number(&mut v, "iat", self.iat);
        proof {
            lemma_member_names_differ();
            assert(json_strings(v) =~= self.text_members());
            assert(json_flags(v) =~= Map::<Seq<char>, bool>::empty());
        }
        v
    }

    /// Whether a document holds every member of request claims with its type.
    open spec fn readable_from(v: serde_json::Value) -> bool {
        &&& json_strings(v).contains_key("iss"@)
        &&& json_strings(v).contains_key("sub"@)
        &&& json_strings(v).contains_key("aud"@)
        &&& json_numbers(v).contains_key("exp"@)
        &&& json_numbers(v).contains_key("iat"@)
    }

    /// Whether the claims hold what the document's members hold.
    open spec fn read_from(&self, v: serde_json::Value) -> bool {
        &&& self.iss@ == json_strings(v)["iss"@]
        &&& self.sub@ == json_strings(v)["sub"@]
        &&& self.aud@ == json_strings(v)["aud"@]
        &&& self.exp == json_numbers(v)["exp"@]
        &&& self.iat == json_numbers(v)["iat"@]
    }

    /// Reads claims out of a document; members besides the five are ignored.
    fn from_json(v: &serde_json::Value) -> (r: Option<Self>) {
        let iss = json_text(v, "iss");
        let sub = json_text(v, "sub");
        let aud = json_text(v, "aud");
        let exp = json_number(v, "exp");
        let iat = json_number(v, "iat");
        let r = Self::from_fields(iss, sub, aud, exp, iat);
        proof {
            assert(r is Some <==> Self::readable_from(*v));
            if let Some(c) = &r {
                assert(c.read_from(*v));
                assert(c.issuer() == json_strings(*v)["iss"@]);
                assert(c.audience() == json_strings(*v)["aud"@]);
            }
        }
        r
    }
}

/// Full session claims: who the user is and whether the session is elevated.
#[derive(Clone, Debug)]
pub struct AuthClaims {
    pub iss: String,
    pub sub: String,
    pub aud: String,
    pub exp: u64,
    pub acc: bool,
    pub iat: u64,
}

impl AuthClaims {
    /// The same claims without the privilege level.
    pub open spec fn request_part(&self) -> AuthRequestClaims {
        AuthRequestClaims {
            iss: self.iss,
            sub: self.sub,
            aud: self.aud,
            exp: self.exp,
            iat: self.iat,
        }
    }

    /// Whether the claims were issued under `config` for `user` at `now`.
    pub open spec fn issued(&self, config: &TokenConfig, user: &User, now: u64) -> bool {
        &&& self.request_part().issued(config, user.uuid@, now)
        &&& self.acc == user.is_admin
    }

    /// Claims for a stored user issued at `now`, unless the expiry would not
    /// fit.
    pub fn issue_at(config: &TokenConfig, user: &User, now: u64) -> (r: Result<Self, AuthError>)
        ensures
            now + config.lifetime <= u64::MAX ==> (r matches Ok(c) && c.issued(config, user, now)),
            now + config.lifetime > u64::MAX ==> (r matches Err(e) && e.is_kind(
                AuthErrorType::TokenGeneration,
            )),
    {
        match now.checked_add(config.lifetime) {
            Some(exp) => Ok(
                Self {
                    iss: config.issuer.clone(),
                    sub: user.uuid.clone(),
                    aud: config.audience.clone(),
                    exp,
                    acc: user.is_admin,
                    iat: now,
                },
            ),
            None => Err(AuthError::from_error_type(AuthErrorType::TokenGeneration)),
        }
    }

    /// Claims issued now for the user a lookup found; a lookup that found
    /// nobody is a failure to generate.
    pub fn new(config: &TokenConfig, lookup: Option<User>) -> (r: Result<Self, AuthError>)
        ensures
            lookup is None ==> r is Err,
            r matches Ok(c) ==> lookup is Some && c.issued(config, &lookup->0, c.iat),
            r matches Err(e) ==> e.is_kind(AuthErrorType::TokenGeneration),
    {
        match lookup {
            Some(user) => {
                let now: u64 = current_timestamp();
                Self::issue_at(config, &user, now)
            },
            None => Err(AuthError::from_error_type(AuthErrorType::TokenGeneration)),
        }
    }

    /// Claims from the members read out of a document: all six are needed.
    pub fn from_fields(
        iss: Option<String>,
        sub: Option<String>,
        aud: Option<String>,
        exp: Option<u64>,
        acc: Option<bool>,
        iat: Option<u64>,
    ) -> (r: Option<Self>)
        ensures
            r is Some <==> (iss is Some && sub is Some && aud is Some && exp is Some && acc is Some
                && iat is Some),
            r matches Some(c) ==> c.iss@ == iss->0@ && c.sub@ == sub->0@ && c.aud@ == aud->0@
                && c.exp == exp->0 && c.acc == acc->0 && c.iat == iat->0,
    {
        match (iss, sub, aud, exp, acc, iat) {
            (Some(iss), Some(sub), Some(aud), Some(exp), Some(acc), Some(iat)) => Some(
                Self { iss, sub, aud, exp, acc, iat },
            ),
            _ => None,
        }
    }
}

impl JWTClaims for AuthClaims {
    open spec fn issuer(&self) -> Seq<char> {
        self.iss@
    }

    open spec fn audience(&self) -> Seq<char> {
        self.aud@
    }

    open spec fn text_members(&self) -> Map<Seq<char>, Seq<char>> {
        claim_texts(self.iss@, self.sub@, self.aud@)
    }

    open spec fn number_members(&self) -> Map<Seq<char>, u64> {
        claim_numbers(self.exp, self.iat)
    }

    open spec fn flag_members(&self) -> Map<Seq<char>, bool> {
        Map::<Seq<char>, bool>::empty().insert("acc"@, self.acc)
    }

    /// The claims document.
    fn to_json(&self) -> (v: serde_json::Value) {
        let base = AuthRequestClaims {
            iss: self.iss.clone(),
            sub: self.sub.clone(),
            aud: self.aud.clone(),
            exp: self.exp,
            iat: self.iat,
        };
        let mut v = base.to_json();
        json_put_flag(&mut v, "acc", self.acc);
        proof {
            lemma_member_names_differ();
            assert(json_strings(v) =~= self.text_members());
            assert(json_numbers(v) =~= self.number_members());
        }
        v
    }

    /// Whether a document holds every member of session claims with its type.
    open spec fn readable_from(v: serde_json::Value) -> bool {
        &&& AuthRequestClaims::readable_from(v)
        &&& json_flags(v).contains_key("acc"@)
    }

    /// Whether the claims hold what the document's members hold.
    open spec fn read_from(&self, v: serde_json::Value) -> bool {
        &&& self.request_part().read_from(v)
        &&& self.acc == json_flags(v)["acc"@]
    }

    /// Reads claims out of a document; members besides the six are ignored.
    fn from_json(v: &serde_json::Value) -> (r: Option<Self>) {
        let iss = json_text(v, "iss");
        let sub = json_text(v, "sub");
        let aud = json_text(v, "aud");
        let exp = json_number(v, "exp");
        let acc = json_flag(v, "acc");
        let iat = json_number(v, "iat");
        let r = Self::from_fields(iss, sub, aud, exp, acc, iat);
        proof {
            assert(AuthRequestClaims::readable_from(*v) <==> (iss is Some && sub is Some
                && aud is Some && exp is Some && iat is Some));
            assert(r is Some <==> Self::readable_from(*v));
            if let Some(c) = &r {
                assert(c.request_part().read_from(*v));
                assert(c.read_from(*v));
                assert(c.issuer() == json_strings(*v)["iss"@]);
                assert(c.audience() == json_strings(*v)["aud"@]);
            }
        }
        r
    }
}

/// Request claims read back unchanged from any document that has their
/// members: the document holds every member, and whatever is read from it has
/// the fields that were written.
pub proof fn lemma_request_document_round_trip(
    written: AuthRequestClaims,
    v: serde_json::Value,
    read: AuthRequestClaims,
)
    requires
        held_by(&written, v),
        read.read_from(v),
    ensures
        AuthRequestClaims::readable_from(v),
        read.iss@ == written.iss@,
        read.sub@ == written.sub@,
        read.aud@ == written.aud@,
        read.exp == written.exp,
        read.iat == written.iat,
{
    lemma_member_names_differ();
}

/// Session claims read back unchanged from any document that has their
/// members, and the same document reads as request claims too, but a document
/// of request claims never reads as session claims.
pub proof fn lemma_session_document_round_trip(
    written: AuthClaims,
    v: serde_json::Value,
    read: AuthClaims,
)
    requires
        held_by(&written, v),
        read.read_from(v),
    ensures
        AuthClaims::readable_from(v),
        AuthRequestClaims::readable_from(v),
        read.iss@ == written.iss@,
        read.sub@ == written.sub@,
        read.aud@ == written.aud@,
        read.exp == written.exp,
        read.acc == written.acc,
        read.iat == written.iat,
        forall|request: AuthRequestClaims, w: serde_json::Value| #[trigger]
            held_by(&request, w) ==> !AuthClaims::readable_from(w),
{
    lemma_member_names_differ();
}

/// Claims that agree field by field are signed into the same token under one
/// secret, and stamped as the same trust header.
pub proof fn lemma_equal_claims_equal_tokens(a: AuthClaims, b: AuthClaims, secret: Seq<u8>)
    requires
        a.iss@ == b.iss@,
        a.sub@ == b.sub@,
        a.aud@ == b.aud@,
        a.exp == b.exp,
        a.acc == b.acc,
        a.iat == b.iat,
    ensures
        signed_text(&a, secret) == signed_text(&b, secret),
        header_text(a.text_members(), a.number_members(), a.flag_members()) == header_text(
            b.text_members(),
            b.number_members(),
            b.flag_members(),
        ),
{
}

/// Request claims that agree field by field are signed into the same token
/// under one secret, and stamped as the same trust header.
pub proof fn lemma_equal_request_claims_equal_tokens(
    a: AuthRequestClaims,
    b: AuthRequestClaims,
    secret: Seq<u8>,
)
    requires
        a.iss@ == b.iss@,
        a.sub@ == b.sub@,
        a.aud@ == b.aud@,
        a.exp == b.exp,
        a.iat == b.iat,
    ensures
        signed_text(&a, secret) == signed_text(&b, secret),
        header_text(a.text_members(), a.number_members(), a.flag_members()) == header_text(
            b.text_members(),
            b.number_members(),
            b.flag_members(),
        ),
{
}

/// Whether a token is validly signed under a secret and its payload has the
/// members of `claims`.
pub open spec fn token_of<T: JWTClaims>(token: Seq<char>, secret: Seq<u8>, claims: &T) -> bool {
    token_holds(
        token,
        secret,
        claims.text_members(),
        claims.number_members(),
        claims.flag_members(),
    )
}

/// Whatever request claims are read off the payload of their own token are
/// the claims that were signed.
pub proof fn lemma_request_token_round_trip(
    signed: AuthRequestClaims,
    token: Seq<char>,
    secret: Seq<u8>,
    read: AuthRequestClaims,
)
    requires
        token_of(token, secret, &signed),
        read.read_from(hs256_payload(token, secret)->0),
    ensures
        hs256_signed(token, secret),
        AuthRequestClaims::readable_from(hs256_payload(token, secret)->0),
        read.iss@ == signed.iss@,
        read.sub@ == signed.sub@,
        read.aud@ == signed.aud@,
        read.exp == signed.exp,
        read.iat == signed.iat,
{
    lemma_request_document_round_trip(signed, hs256_payload(token, secret)->0, read);
}

/// Whatever session claims are read off the payload of their own token are
/// the claims that were signed.
pub proof fn lemma_session_token_round_trip(
    signed: AuthClaims,
    token: Seq<char>,
    secret: Seq<u8>,
    read: AuthClaims,
)
    requires
        token_of(token, secret, &signed),
        read.read_from(hs256_payload(token, secret)->0),
    ensures
        hs256_signed(token, secret),
        AuthClaims::readable_from(hs256_payload(token, secret)->0),
        read.iss@ == signed.iss@,
        read.sub@ == signed.sub@,
        read.aud@ == signed.aud@,
        read.exp == signed.exp,
        read.acc == signed.acc,
        read.iat == signed.iat,
{
    lemma_session_document_round_trip(signed, hs256_payload(token, secret)->0, read);
}

/// An issued token with any other signature segment is not validly signed,
/// so that verifying it fails.
pub proof fn lemma_tampered_signature_is_refused(
    token: Seq<char>,
    other: Seq<char>,
    secret: Seq<u8>,
)
    requires
        sole_signature(token, secret),
        resigned(token, other),
    ensures
        !hs256_signed(other, secret),
        hs256_payload(other, secret) is None,
{
}

/// Replacing one character of the signature segment by another that is no
/// dot gives the token another signature segment.
pub proof fn lemma_changed_character_resigns(token: Seq<char>, at: int, c: char)
    requires
        0 <= at < token.len(),
        c != '.',
        c != token[at],
        exists|k: int| 0 < k <= at && token[k - 1] == '.' && !(#[trigger] token.skip(k)).contains('.'),
    ensures
        resigned(token, token.update(at, c)),
{
    let other = token.update(at, c);
    let k = choose|k: int| 0 < k <= at && token[k - 1] == '.' && !(#[trigger] token.skip(k)).contains('.');
    assert(token.take(k) =~= other.take(k));
    assert(!other.skip(k).contains('.')) by {
        if other.skip(k).contains('.') {
            let i = choose|i: int| 0 <= i < other.skip(k).len() && other.skip(k)[i] == '.';
            assert(other[k + i] == '.');
            assert(k + i != at);
            assert(token.skip(k)[i] == '.');
        }
    }
    assert(other[at] != token[at]);
}

} // verus!
