//! The internal trust header: verified claims are stamped onto a request once,
//! at the edge, and read back downstream without another signature check.

use vstd::prelude::*;
use vstd::string::*;
use vstd::utf8::encode_utf8;
use crate::auth::{AuthError, AuthErrorType};
use crate::claims::{
    held_by, lemma_request_document_round_trip, lemma_session_document_round_trip, AuthClaims,
    AuthRequestClaims, JWTClaims, TokenConfig,
};
use crate::codec::{
    base64_decode, base64_decoded, base64_encode, base64_encoded, json_flags, json_holds,
    hs256_payload, hs256_signed, json_is_flat, json_numbers, json_parse, json_parsed, json_render,
    json_rendered, json_strings, parses_to,
};
use crate::user::same_text;

verus! {

/// One header of a request. Names are kept in lower case, as the transport
/// layer normalises them.
#[derive(Clone, Debug)]
pub struct HeaderEntry {
    pub name: String,
    pub value: String,
}

impl HeaderEntry {
    /// Whether this is the internal trust header.
    pub open spec fn is_claims(&self) -> bool {
        self.name@ == "x-claims"@
    }
}

/// The headers without any internal trust header, in their order.
pub open spec fn without_claims(s: Seq<HeaderEntry>) -> Seq<HeaderEntry>
    decreases s.len(),
{
    if s.len() == 0 {
        s
    } else if s.last().is_claims() {
        without_claims(s.drop_last())
    } else {
        without_claims(s.drop_last()).push(s.last())
    }
}

/// The value of the first internal trust header, if there is one.
pub open spec fn first_claims(s: Seq<HeaderEntry>) -> Option<Seq<char>>
    decreases s.len(),
{
    if s.len() == 0 {
        None
    } else if s[0].is_claims() {
        Some(s[0].value@)
    } else {
        first_claims(s.drop_first())
    }
}

/// The headers as the next stage sees them: every trust header that came in
/// is gone and `entry` stands at the end.
pub open spec fn stamped(s: Seq<HeaderEntry>, entry: HeaderEntry) -> Seq<HeaderEntry> {
    without_claims(s).push(entry)
}

/// Nothing that `without_claims` keeps is a trust header.
pub proof fn lemma_without_claims_is_clean(s: Seq<HeaderEntry>)
    ensures
        forall|i: int| 0 <= i < without_claims(s).len() ==> !(#[trigger] without_claims(s)[i]).is_claims(),
    decreases s.len(),
{
    if s.len() > 0 {
        lemma_without_claims_is_clean(s.drop_last());
        let rest = without_claims(s.drop_last());
        assert forall|i: int| 0 <= i < without_claims(s).len() implies !(#[trigger] without_claims(
            s,
        )[i]).is_claims() by {
            if i < rest.len() {
                assert(without_claims(s)[i] == rest[i]);
            }
        }
    }
}

/// Behind headers that hold no trust header, the first trust header is the
/// first of what follows.
pub proof fn lemma_first_claims_skips_clean(s: Seq<HeaderEntry>, t: Seq<HeaderEntry>)
    requires
        forall|i: int| 0 <= i < s.len() ==> !(#[trigger] s[i]).is_claims(),
    ensures
        first_claims(s + t) == first_claims(t),
    decreases s.len(),
{
    if s.len() == 0 {
        assert(s + t =~= t);
    } else {
        assert((s + t).drop_first() =~= s.drop_first() + t);
        assert((s + t)[0] == s[0]);
        assert forall|i: int| 0 <= i < s.drop_first().len() implies !(#[trigger] s.drop_first()[i]).is_claims() by {
            assert(s.drop_first()[i] == s[i + 1]);
        }
        lemma_first_claims_skips_clean(s.drop_first(), t);
    }
}

/// Whatever trust headers a client sent, after stamping there is exactly one,
/// the last entry, and reading the trust header gives the stamped value.
pub proof fn lemma_stamp_replaces_client_claims(s: Seq<HeaderEntry>, entry: HeaderEntry)
    requires
        entry.is_claims(),
    ensures
        first_claims(stamped(s, entry)) == Some(entry.value@),
        forall|i: int|
            0 <= i < stamped(s, entry).len() && (#[trigger] stamped(s, entry)[i]).is_claims() ==> i
                == stamped(s, entry).len() - 1,
{
    lemma_without_claims_is_clean(s);
    let tail = Seq::<HeaderEntry>::empty().push(entry);
    assert(stamped(s, entry) =~= without_claims(s) + tail);
    lemma_first_claims_skips_clean(without_claims(s), tail);
    assert(tail.drop_first() =~= Seq::<HeaderEntry>::empty());
    assert(first_claims(tail) == Some(entry.value@));
}

/// Drops every internal trust header and keeps the rest in order.
pub fn strip_claims(headers: &Vec<HeaderEntry>) -> (r: Vec<HeaderEntry>)
    ensures
        r@ == without_claims(headers@),
{
    let mut kept: Vec<HeaderEntry> = Vec::new();
    let mut i: usize = 0;
    while i < headers.len()
        invariant
            i <= headers.len(),
            kept@ == without_claims(headers@.take(i as int)),
        decreases headers.len() - i,
    {
        proof {
            assert(headers@.take(i + 1).drop_last() =~= headers@.take(i as int));
            assert(headers@.take(i + 1).last() == headers@[i as int]);
        }
        if !same_text(headers[i].name.as_str(), "x-claims") {
            kept.push(HeaderEntry { name: headers[i].name.clone(), value: headers[i].value.clone() });
        }
        i += 1;
    }
    proof {
        assert(headers@.take(i as int) =~= headers@);
    }
    kept
}

/// The value of the first internal trust header.
pub fn find_claims(headers: &Vec<HeaderEntry>) -> (r: Option<String>)
    ensures
        r is Some <==> first_claims(headers@) is Some,
        r matches Some(text) ==> first_claims(headers@) == Some(text@),
{
    let mut i: usize = 0;
    proof {
        assert(headers@.skip(0) =~= headers@);
    }
    while i < headers.len()
        invariant
            i <= headers.len(),
            first_claims(headers@) == first_claims(headers@.skip(i as int)),
        decreases headers.len() - i,
    {
        if same_text(headers[i].name.as_str(), "x-claims") {
            return Some(headers[i].value.clone());
        }
        proof {
            assert(headers@.skip(i as int).drop_first() =~= headers@.skip(i + 1));
        }
        i += 1;
    }
    None
}

/// The document that the internal trust header of a request carries: the
/// header's value, base64-decoded and read as JSON.
pub open spec fn carried_document(headers: Seq<HeaderEntry>) -> Option<serde_json::Value> {
    match first_claims(headers) {
        None => None,
        Some(text) => match base64_decoded(text) {
            None => None,
            Some(bytes) => json_parsed(bytes),
        },
    }
}

/// The trust header's value for a claims document with these members: the
/// base64 text of the document's JSON text.
pub open spec fn header_text(
    strings: Map<Seq<char>, Seq<char>>,
    numbers: Map<Seq<char>, u64>,
    flags: Map<Seq<char>, bool>,
) -> Seq<char> {
    base64_encoded(encode_utf8(json_rendered(strings, numbers, flags)))
}

/// Whether a header value decodes to a document with these members.
pub open spec fn reads_back(
    text: Seq<char>,
    strings: Map<Seq<char>, Seq<char>>,
    numbers: Map<Seq<char>, u64>,
    flags: Map<Seq<char>, bool>,
) -> bool {
    base64_decoded(text) matches Some(bytes) && parses_to(bytes, strings, numbers, flags)
}

/// Finds the trust header and decodes the document it carries.
pub(crate) fn read_document(headers: &Vec<HeaderEntry>) -> (r: Option<serde_json::Value>)
    ensures
        r == carried_document(headers@),
{
    match find_claims(headers) {
        None => None,
        Some(text) => match base64_decode(text.as_str()) {
            None => None,
            Some(bytes) => json_parse(bytes.as_slice()),
        },
    }
}

/// Encodes a claims document as the value of the trust header.
pub(crate) fn write_document(v: &serde_json::Value) -> (r: String)
    requires
        json_is_flat(*v),
    ensures
        r@ == header_text(json_strings(*v), json_numbers(*v), json_flags(*v)),
        reads_back(r@, json_strings(*v), json_numbers(*v), json_flags(*v)),
{
    let text = json_render(v);
    base64_encode(text.as_str().as_bytes())
}

/// Whether `after` is `before` with every incoming trust header removed and
/// the trust header of `claims` put at the end.
pub open spec fn restamped<T: JWTClaims>(
    before: Seq<HeaderEntry>,
    claims: T,
    after: Seq<HeaderEntry>,
) -> bool {
    &&& after.len() == without_claims(before).len() + 1
    &&& after.drop_last() == without_claims(before)
    &&& after.last().is_claims()
    &&& after.last().value@ == header_text(
        claims.text_members(),
        claims.number_members(),
        claims.flag_members(),
    )
}

/// Whether the trust header of a request carries a document with the members
/// of `claims`.
pub open spec fn carries<T: JWTClaims>(headers: Seq<HeaderEntry>, claims: T) -> bool {
    carried_document(headers) matches Some(w) && held_by(&claims, w)
}

/// Stamps verified claims onto a request's headers: any trust header that the
/// client supplied is removed, and one that carries `claims` is attached.
pub fn auth_token<T: JWTClaims>(claims: &T, headers: &Vec<HeaderEntry>) -> (r: Vec<HeaderEntry>)
    ensures
        restamped(headers@, *claims, r@),
        first_claims(r@) == Some(r@.last().value@),
        carries(r@, *claims),
{
    let mut out = strip_claims(headers);
    let entry = HeaderEntry { name: String::from_str("x-claims"), value: claims.header_value() };
    out.push(entry);
    proof {
        assert(out@ == stamped(headers@, entry));
        assert(out@.drop_last() =~= without_claims(headers@));
        lemma_stamp_replaces_client_claims(headers@, entry);
    }
    out
}

/// The edge of a protected route: the bearer token is verified first, as
/// claims of the kind the route asks for, and only then are the headers
/// stamped. A request without a valid token is refused, whatever trust header
/// it carries; the claims that are stamped are read off the payload of the
/// bearer token, which is validly signed under the configured secret.
pub fn protect<T: JWTClaims>(
    config: &TokenConfig,
    bearer: Option<&str>,
    headers: &Vec<HeaderEntry>,
) -> (r: Result<(T, Vec<HeaderEntry>), AuthError>)
    ensures
        bearer is None ==> r is Err,
        r matches Err(e) ==> e.is_kind(AuthErrorType::InvalidToken),
        r is Ok ==> bearer is Some && hs256_signed(bearer->0@, config.secret@),
        r matches Ok(out) ==> hs256_payload(bearer->0@, config.secret@) matches Some(d)
            && T::readable_from(d) && out.0.read_from(d),
        r matches Ok(out) ==> out.0.issuer() == config.issuer@ && out.0.audience()
            == config.audience@ && restamped(headers@, out.0, out.1@) && first_claims(out.1@)
            == Some(out.1@.last().value@) && carries(out.1@, out.0),
{
    match bearer {
        None => Err(AuthError::from_error_type(AuthErrorType::InvalidToken)),
        Some(token) => match T::from_string(config, token) {
            Err(e) => Err(e),
            Ok(claims) => {
                let out = auth_token(&claims, headers);
                Ok((claims, out))
            },
        },
    }
}

/// Request claims that were stamped onto a request are what a handler reads
/// off it: the trust header holds every member, and whatever is read has the
/// fields that were stamped.
pub proof fn lemma_request_header_round_trip(
    headers: Seq<HeaderEntry>,
    stamped_claims: AuthRequestClaims,
    read: AuthRequestClaims,
)
    requires
        carries(headers, stamped_claims),
        read.read_from(carried_document(headers)->0),
    ensures
        AuthRequestClaims::readable_from(carried_document(headers)->0),
        read.iss@ == stamped_claims.iss@,
        read.sub@ == stamped_claims.sub@,
        read.aud@ == stamped_claims.aud@,
        read.exp == stamped_claims.exp,
        read.iat == stamped_claims.iat,
{
    lemma_request_document_round_trip(stamped_claims, carried_document(headers)->0, read);
}

/// Session claims that were stamped onto a request are what a handler reads
/// off it: the trust header holds every member, and whatever is read has the
/// fields that were stamped.
pub proof fn lemma_session_header_round_trip(
    headers: Seq<HeaderEntry>,
    stamped_claims: AuthClaims,
    read: AuthClaims,
)
    requires
        carries(headers, stamped_claims),
        read.read_from(carried_document(headers)->0),
    ensures
        AuthClaims::readable_from(carried_document(headers)->0),
        read.iss@ == stamped_claims.iss@,
        read.sub@ == stamped_claims.sub@,
        read.aud@ == stamped_claims.aud@,
        read.exp == stamped_claims.exp,
        read.acc == stamped_claims.acc,
        read.iat == stamped_claims.iat,
{
    lemma_session_document_round_trip(stamped_claims, carried_document(headers)->0, read);
}

} // verus!
