//! The auth gate: bearer credentials, and when they are accepted.

use vstd::prelude::*;
use vstd::string::*;
use crate::text::{str_view, text_view};
use axum::http::header::AUTHORIZATION;
use axum::http::Request;
use axum_auth::{AuthBearer, AuthBearerCustom};

verus! {

/// The characters a header value can be read back as text with: visible
/// ASCII, the space and the horizontal tab.
pub open spec fn is_header_char(c: char) -> bool {
    (' ' <= c && c <= '~') || c == '\t'
}

/// True when every character of `text` can stand in a readable header value.
pub open spec fn is_header_text(text: Seq<char>) -> bool {
    forall|i: int| 0 <= i < text.len() ==> is_header_char(#[trigger] text[i])
}

/// The scheme word of a bearer credential, with the space that follows it.
pub open spec fn bearer_prefix() -> Seq<char> {
    seq!['B', 'e', 'a', 'r', 'e', 'r', ' ']
}

/// The bearer token that an `Authorization` header value presents, if it
/// presents one: what follows `Bearer` and one space, or the empty token for
/// the bare word `Bearer`.
pub open spec fn bearer_of(header: Seq<char>) -> Option<Seq<char>> {
    if !is_header_text(header) {
        None
    } else if header.len() >= 7 && header.take(7) == bearer_prefix() {
        Some(header.skip(7))
    } else if header == bearer_prefix().take(6) {
        Some(Seq::<char>::empty())
    } else {
        None
    }
}

/// Puts `header` into a request as its `Authorization` header and has
/// `axum_auth::AuthBearer` decode it with
/// `AuthBearerCustom::decode_request_parts`. The token comes back exactly
/// when the value is readable header text that starts with `Bearer` and a
/// space, or is the bare word `Bearer`; a value the request cannot hold, or
/// that the extractor rejects, gives `None`.
#[verifier::external_body]
fn decode_bearer(header: &str) -> (token: Option<String>)
    ensures
        match bearer_of(header@) {
            Some(expected) => token matches Some(found) && found@ == expected,
            None => token is None,
        },
{
    let request = Request::builder().header(AUTHORIZATION, header).body(()).ok()?;
    let (mut parts, _) = request.into_parts();
    match AuthBearer::decode_request_parts(&mut parts) {
        Ok(AuthBearer(token)) => Some(token),
        Err(_) => None,
    }
}

/// The credential that a request presents, given its `Authorization` header
/// value if it has one.
pub open spec fn presented(authorization: Option<Seq<char>>) -> Option<Seq<char>> {
    match authorization {
        Some(header) => bearer_of(header),
        None => None,
    }
}

/// Extracts the bearer token from a request's `Authorization` header value.
/// A request without the header, or with one that is no bearer credential,
/// presents nothing.
pub fn bearer_token(authorization: Option<&str>) -> (token: Option<String>)
    ensures
        match presented(str_view(authorization)) {
            Some(expected) => token matches Some(found) && found@ == expected,
            None => token is None,
        },
{
    match authorization {
        Some(header) => decode_bearer(header),
        None => None,
    }
}

/// A credential is accepted exactly when it is present and equals the
/// expected token, character for character.
pub open spec fn accepts(expected: Seq<char>, credential: Option<Seq<char>>) -> bool {
    credential == Some(expected)
}

/// Decides whether a presented credential matches the expected token.
pub fn credential_accepted(expected: &String, credential: &Option<String>) -> (accepted: bool)
    ensures
        accepted == accepts(expected@, text_view(*credential)),
{
    match credential {
        Some(token) => *token == *expected,
        None => false,
    }
}

/// A header made of `Bearer`, one space and a token presents that token,
/// whatever readable text the token is.
pub proof fn law_bearer_header_presents_its_token(token: Seq<char>)
    requires
        is_header_text(token),
    ensures
        bearer_of(bearer_prefix() + token) == Some(token),
{
    let header = bearer_prefix() + token;
    assert forall|i: int| 0 <= i < header.len() implies is_header_char(#[trigger] header[i]) by {
        if i >= 7 {
            assert(header[i] == token[i - 7]);
        }
    }
    assert(header.take(7) =~= bearer_prefix());
    assert(header.skip(7) =~= token);
}

} // verus!
