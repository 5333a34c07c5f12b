//! The outside codecs the claims travel through: JSON values, HS256 signed
//! tokens, base64 text and the wall clock. Nothing in this file is proved; each
//! item says what it takes on trust.

use vstd::prelude::*;
use vstd::utf8::encode_utf8;
use crate::claims::LEEWAY_SECONDS;

verus! {

/// A JSON document of `serde_json`, carried as an opaque value.
#[verifier::external_type_specification]
#[verifier::external_body]
pub struct ExJsonValue(serde_json::Value);

/// The failure of a `jsonwebtoken` call, carried as an opaque value.
#[verifier::external_type_specification]
#[verifier::external_body]
pub struct ExTokenFailure(jsonwebtoken::errors::Error);

/// Whether a JSON document is an object whose every member is a string, an
/// integer from 0 to 2^64 - 1, or a boolean.
pub uninterp spec fn json_is_flat(v: serde_json::Value) -> bool;

/// The members of a JSON object whose value is a string, by key; empty for a
/// document that is no object.
pub uninterp spec fn json_strings(v: serde_json::Value) -> Map<Seq<char>, Seq<char>>;

/// The members of a JSON object whose value is a non-negative integer below
/// 2^64, by key; empty for a document that is no object.
pub uninterp spec fn json_numbers(v: serde_json::Value) -> Map<Seq<char>, u64>;

/// The members of a JSON object whose value is `true` or `false`, by key;
/// empty for a document that is no object.
pub uninterp spec fn json_flags(v: serde_json::Value) -> Map<Seq<char>, bool>;

/// The compact text `serde_json` writes for the object that has exactly these
/// string, number and boolean members: its keys stand in sorted order.
pub uninterp spec fn json_rendered(
    strings: Map<Seq<char>, Seq<char>>,
    numbers: Map<Seq<char>, u64>,
    flags: Map<Seq<char>, bool>,
) -> Seq<char>;

/// The document `serde_json` reads from bytes, if they are UTF-8 JSON.
pub uninterp spec fn json_parsed(bytes: Seq<u8>) -> Option<serde_json::Value>;

/// The compact HS256 token `jsonwebtoken` makes, with the default header and
/// under a secret, of the claims object that has exactly these string, number
/// and boolean members.
pub uninterp spec fn hs256_token(
    strings: Map<Seq<char>, Seq<char>>,
    numbers: Map<Seq<char>, u64>,
    flags: Map<Seq<char>, bool>,
    secret: Seq<u8>,
) -> Option<Seq<char>>;

/// The payload document of a compact token whose header names HS256 and whose
/// last segment is the HS256 signature, under a secret, of what stands before
/// it; `None` for any other text, and where the payload is no JSON document.
pub uninterp spec fn hs256_payload(token: Seq<char>, secret: Seq<u8>) -> Option<serde_json::Value>;

/// Whether a text is a compact token that carries a valid HS256 signature
/// under a secret, and a JSON document as its payload.
pub open spec fn hs256_signed(token: Seq<char>, secret: Seq<u8>) -> bool {
    hs256_payload(token, secret) is Some
}

/// Whether a token is validly signed under a secret and its payload is a
/// document with exactly these string, number and boolean members.
pub open spec fn token_holds(
    token: Seq<char>,
    secret: Seq<u8>,
    strings: Map<Seq<char>, Seq<char>>,
    numbers: Map<Seq<char>, u64>,
    flags: Map<Seq<char>, bool>,
) -> bool {
    hs256_payload(token, secret) matches Some(d) && json_holds(d, strings, numbers, flags)
}

/// Whether `other` is `token` with another signature segment: the two agree
/// up to and with a dot, after which neither has a dot, and they differ.
pub open spec fn resigned(token: Seq<char>, other: Seq<char>) -> bool {
    exists|k: int|
        0 < k <= token.len() && k <= other.len() && token[k - 1] == '.' && #[trigger] token.take(k)
            == other.take(k) && !token.skip(k).contains('.') && !other.skip(k).contains('.')
            && token != other
}

/// Whether no text that is `token` with another signature segment is validly
/// signed under the secret.
pub open spec fn sole_signature(token: Seq<char>, secret: Seq<u8>) -> bool {
    forall|other: Seq<char>| #[trigger] resigned(token, other) ==> !hs256_signed(other, secret)
}

/// The standard-alphabet, padded base64 text of some bytes.
pub uninterp spec fn base64_encoded(bytes: Seq<u8>) -> Seq<char>;

/// The bytes that a standard-alphabet, padded base64 text stands for.
pub uninterp spec fn base64_decoded(text: Seq<char>) -> Option<Seq<u8>>;

/// Whether a document has exactly these string, number and boolean members.
pub open spec fn json_holds(
    v: serde_json::Value,
    strings: Map<Seq<char>, Seq<char>>,
    numbers: Map<Seq<char>, u64>,
    flags: Map<Seq<char>, bool>,
) -> bool {
    &&& json_strings(v) == strings
    &&& json_numbers(v) == numbers
    &&& json_flags(v) == flags
}

/// Whether the bytes are a JSON document with exactly these string, number
/// and boolean members.
pub open spec fn parses_to(
    bytes: Seq<u8>,
    strings: Map<Seq<char>, Seq<char>>,
    numbers: Map<Seq<char>, u64>,
    flags: Map<Seq<char>, bool>,
) -> bool {
    json_parsed(bytes) matches Some(w) && json_holds(w, strings, numbers, flags)
}

/// An object without any member.
pub open spec fn json_is_empty_object(v: serde_json::Value) -> bool {
    &&& json_is_flat(v)
    &&& json_strings(v) == Map::<Seq<char>, Seq<char>>::empty()
    &&& json_numbers(v) == Map::<Seq<char>, u64>::empty()
    &&& json_flags(v) == Map::<Seq<char>, bool>::empty()
}

/// `serde_json::Map::new` inside `Value::Object`: an object without members.
#[verifier::external_body]
pub(crate) fn json_object() -> (v: serde_json::Value)
    ensures
        json_is_empty_object(v),
{
    serde_json::Value::Object(serde_json::Map::new())
}

/// Assignment through `serde_json::Value`'s string index: sets member `key` of
/// an object to a string, whatever it held before, and touches no other member.
#[verifier::external_body]
pub(crate) fn json_put_text(v: &mut serde_json::Value, key: &str, text: &str)
    requires
        json_is_flat(*old(v)),
    ensures
        json_is_flat(*final(v)),
        json_strings(*final(v)) == json_strings(*old(v)).insert(key@, text@),
        json_numbers(*final(v)) == json_numbers(*old(v)).remove(key@),
        json_flags(*final(v)) == json_flags(*old(v)).remove(key@),
{
    v[key] = serde_json::Value::from(text);
}

/// Assignment through `serde_json::Value`'s string index: sets member `key` of
/// an object to an unsigned number, and touches no other member.
#[verifier::external_body]
pub(crate) fn json_put_number(v: &mut serde_json::Value, key: &str, number: u64)
    requires
        json_is_flat(*old(v)),
    ensures
        json_is_flat(*final(v)),
        json_strings(*final(v)) == json_strings(*old(v)).remove(key@),
        json_numbers(*final(v)) == json_numbers(*old(v)).insert(key@, number),
        json_flags(*final(v)) == json_flags(*old(v)).remove(key@),
{
    v[key] = serde_json::Value::from(number);
}

/// Assignment through `serde_json::Value`'s string index: sets member `key` of
/// an object to a boolean, and touches no other member.
#[verifier::external_body]
pub(crate) fn json_put_flag(v: &mut serde_json::Value, key: &str, flag: bool)
    requires
        json_is_flat(*old(v)),
    ensures
        json_is_flat(*final(v)),
        json_strings(*final(v)) == json_strings(*old(v)).remove(key@),
        json_numbers(*final(v)) == json_numbers(*old(v)).remove(key@),
        json_flags(*final(v)) == json_flags(*old(v)).insert(key@, flag),
{
    v[key] = serde_json::Value::from(flag);
}

/// `Value::get` with a string key, then `Value::as_str`: the member's text
/// where the document is an object whose member `key` is a string.
#[verifier::external_body]
pub(crate) fn json_text(v: &serde_json::Value, key: &str) -> (r: Option<String>)
    ensures
        r matches Some(s) ==> json_strings(*v).contains_key(key@) && json_strings(*v)[key@] == s@,
        r is None ==> !json_strings(*v).contains_key(key@),
{
    v.get(key).and_then(serde_json::Value::as_str).map(str::to_owned)
}

/// `Value::get` with a string key, then `Value::as_u64`: the member's number
/// where it is an integer from 0 to 2^64 - 1.
#[verifier::external_body]
pub(crate) fn json_number(v: &serde_json::Value, key: &str) -> (r: Option<u64>)
    ensures
        r matches Some(n) ==> json_numbers(*v).contains_key(key@) && json_numbers(*v)[key@] == n,
        r is None ==> !json_numbers(*v).contains_key(key@),
{
    v.get(key).and_then(serde_json::Value::as_u64)
}

/// `Value::get` with a string key, then `Value::as_bool`.
#[verifier::external_body]
pub(crate) fn json_flag(v: &serde_json::Value, key: &str) -> (r: Option<bool>)
    ensures
        r matches Some(b) ==> json_flags(*v).contains_key(key@) && json_flags(*v)[key@] == b,
        r is None ==> !json_flags(*v).contains_key(key@),
{
    v.get(key).and_then(serde_json::Value::as_bool)
}

/// `Value`'s `to_string`: the compact JSON text of a flat object, which its
/// members decide. Also claimed: `serde_json` reads that text back as a
/// document with the same members.
#[verifier::external_body]
pub(crate) fn json_render(v: &serde_json::Value) -> (r: String)
    requires
        json_is_flat(*v),
    ensures
        r@ == json_rendered(json_strings(*v), json_numbers(*v), json_flags(*v)),
        parses_to(encode_utf8(r@), json_strings(*v), json_numbers(*v), json_flags(*v)),
{
    v.to_string()
}

/// `serde_json::from_slice` into a `Value`; `None` for bytes that are not
/// UTF-8 or not JSON.
#[verifier::external_body]
pub(crate) fn json_parse(bytes: &[u8]) -> (r: Option<serde_json::Value>)
    ensures
        r == json_parsed(bytes@),
{
    serde_json::from_slice::<serde_json::Value>(bytes).ok()
}

/// `jsonwebtoken::encode` with the default header (HS256) and a key made of
/// `secret` by `EncodingKey::from_secret`, on a flat object: the members and
/// the secret decide the token. Also claimed of the token that comes back:
/// it is validly signed under the secret, its payload reads back as a
/// document with the same members, and with any other signature segment it
/// is not validly signed (the decoder signs again and compares the texts).
#[verifier::external_body]
pub(crate) fn sign_hs256(v: &serde_json::Value, secret: &[u8]) -> (r: Result<
    String,
    jsonwebtoken::errors::Error,
>)
    requires
        json_is_flat(*v),
    ensures
        r matches Ok(t) ==> hs256_token(json_strings(*v), json_numbers(*v), json_flags(*v), secret@)
            == Some(t@),
        r matches Ok(t) ==> token_holds(
            t@,
            secret@,
            json_strings(*v),
            json_numbers(*v),
            json_flags(*v),
        ),
        r matches Ok(t) ==> sole_signature(t@, secret@),
        r is Err ==> hs256_token(json_strings(*v), json_numbers(*v), json_flags(*v), secret@)
            is None,
{
    let key = jsonwebtoken::EncodingKey::from_secret(secret);
    jsonwebtoken::encode(&jsonwebtoken::Header::default(), v, &key)
}

/// `jsonwebtoken::decode` for HS256 with one accepted issuer, one accepted
/// audience and a leeway in seconds. The outcome depends on the clock, so only
/// this is claimed: where a document comes back, the token carries a valid
/// HS256 signature under the secret and the document is its payload, and
/// where the document's `iss` (its `aud`) is a string, that string is the
/// accepted issuer (audience). The leeway is kept small: the decoder
/// subtracts it from the current time.
#[verifier::external_body]
pub(crate) fn verify_hs256(
    token: &str,
    secret: &[u8],
    issuer: &str,
    audience: &str,
    leeway: u64,
) -> (r: Result<serde_json::Value, jsonwebtoken::errors::Error>)
    requires
        leeway <= LEEWAY_SECONDS,
    ensures
        r matches Ok(v) ==> hs256_payload(token@, secret@) == Some(v),
        r matches Ok(v) ==> (json_strings(v).contains_key("iss"@) ==> json_strings(v)["iss"@]
            == issuer@),
        r matches Ok(v) ==> (json_strings(v).contains_key("aud"@) ==> json_strings(v)["aud"@]
            == audience@),
{
    let mut validation = jsonwebtoken::Validation::new(jsonwebtoken::Algorithm::HS256);
    validation.leeway = leeway;
    validation.set_audience(&[audience]);
    validation.set_issuer(&[issuer]);
    let key = jsonwebtoken::DecodingKey::from_secret(secret);
    jsonwebtoken::decode::<serde_json::Value>(token, &key, &validation).map(|data| data.claims)
}

/// `jsonwebtoken::get_current_timestamp`: seconds since the Unix epoch. Nothing
/// is claimed of the value.
#[verifier::external_body]
pub(crate) fn current_timestamp() -> u64 {
    jsonwebtoken::get_current_timestamp()
}

/// `Engine::encode` of `base64`'s `STANDARD` engine. Also claimed: the engine
/// decodes that text to the same bytes again.
#[verifier::external_body]
pub(crate) fn base64_encode(bytes: &[u8]) -> (r: String)
    ensures
        r@ == base64_encoded(bytes@),
        base64_decoded(r@) == Some(bytes@),
{
    base64::Engine::encode(&base64::prelude::BASE64_STANDARD, bytes)
}

/// `Engine::decode` of `base64`'s `STANDARD` engine; `None` for text that is
/// not canonical padded base64.
#[verifier::external_body]
pub(crate) fn base64_decode(text: &str) -> (r: Option<Vec<u8>>)
    ensures
        r matches Some(b) ==> base64_decoded(text@) == Some(b@),
        r is None ==> base64_decoded(text@) is None,
{
    base64::Engine::decode(&base64::prelude::BASE64_STANDARD, text).ok()
}

} // verus!
