//! Classifying a response by its status and decoding its body.
use vstd::prelude::*;

use crate::error::ClientError;
use crate::links::{header_view, parse_link_header, LinkValue, LinkValueModel};

verus! {

/// The status that says a response has no content.
pub const NO_CONTENT: u16 = 204;

/// Whether a status is in the success range, 200 to 299.
pub open spec fn is_success(status: u16) -> bool {
    200 <= status && status < 300
}

/// Whether a status is in the success range, 200 to 299.
pub fn status_is_success(status: u16) -> (r: bool)
    ensures
        r == is_success(status),
{
    200 <= status && status < 300
}

/// What the caller expects a successful response to carry.
#[derive(Debug, Clone, Copy, PartialEq, Eq)]
pub enum Expect {
    /// No payload: whatever the body holds is not looked at.
    Nothing,
    /// A JSON document.
    Json,
}

/// The payload of a successful response.
#[derive(Debug, Clone, PartialEq, Eq)]
pub enum Payload {
    /// No payload: the status said there is no content, or none was expected.
    Empty,
    /// The body, which holds one JSON document.
    Json(Vec<u8>),
}

/// Whether serde_json reads the bytes as one JSON document.
pub uninterp spec fn is_json_document(b: Seq<u8>) -> bool;

/// Relies on `serde_json::from_slice` into `serde_json::Value`: whether the
/// bytes hold exactly one JSON document, with nothing but whitespace after it.
#[verifier::external_body]
fn json_document(b: &[u8]) -> (r: bool)
    ensures
        r == is_json_document(b@),
{
    serde_json::from_slice::<serde_json::Value>(b).is_ok()
}

/// The text that `String::from_utf8_lossy` makes of some bytes.
pub uninterp spec fn lossy_text(b: Seq<u8>) -> Seq<char>;

/// Relies on `String::from_utf8_lossy`: the bytes as text, each invalid
/// sequence replaced by U+FFFD.
#[verifier::external_body]
fn body_text(b: &[u8]) -> (r: String)
    ensures
        r@ == lossy_text(b@),
{
    String::from_utf8_lossy(b).into_owned()
}

/// Whether `e` is the error that a failed response with this status and
/// body gives: its status, and the body as text where the body is not empty.
pub open spec fn is_api_error(e: ClientError, status: u16, body: Seq<u8>) -> bool {
    match e {
        ClientError::Api { status: s, body_text: t } => s == status && if body.len() == 0 {
            t is None
        } else {
            t matches Some(text) && text@ == lossy_text(body)
        },
        _ => false,
    }
}

/// Whether a response with this status needs no body, whatever it holds.
pub open spec fn needs_no_body(status: u16, expect: Expect) -> bool {
    status == NO_CONTENT || expect == Expect::Nothing
}

/// Whether `r` is what decoding a response with this status and body gives.
pub open spec fn decoded(r: Result<Payload, ClientError>, status: u16, body: Seq<u8>, expect: Expect) -> bool {
    if !is_success(status) {
        r matches Err(e) && is_api_error(e, status, body)
    } else if needs_no_body(status, expect) {
        r == Ok::<Payload, ClientError>(Payload::Empty)
    } else if is_json_document(body) {
        r matches Ok(Payload::Json(b)) && b@ == body
    } else {
        r == Err::<Payload, ClientError>(ClientError::Decode)
    }
}

/// Decodes a response from its status and body.
///
/// A status outside the success range gives an API error that carries the
/// status and, where the body is not empty, the body as text. A success with
/// no content, or one where no payload is expected, gives `Payload::Empty`
/// whatever the body holds. Any other success gives the body where it is one
/// JSON document, and a decode error where it is not.
pub fn decode(status: u16, body: &[u8], expect: Expect) -> (r: Result<Payload, ClientError>)
    ensures
        decoded(r, status, body@, expect),
{
    if !status_is_success(status) {
        let body_text = if body.len() == 0 {
            None
        } else {
            Some(body_text(body))
        };
        Err(ClientError::Api { status, body_text })
    } else if status == NO_CONTENT || matches!(expect, Expect::Nothing) {
        Ok(Payload::Empty)
    } else if json_document(body) {
        Ok(Payload::Json(vstd::slice::slice_to_vec(body)))
    } else {
        Err(ClientError::Decode)
    }
}

/// Decodes a response whose `Link` header may advertise further pages.
///
/// The payload, or the error, is what [`decode`] gives. Beside a payload
/// stands the parsed header: absent where the response had none or where it
/// does not parse.
pub fn decode_with_link(status: u16, link_header: Option<&str>, body: &[u8], expect: Expect) -> (r:
    Result<(Option<Vec<LinkValue>>, Payload), ClientError>)
    ensures
        decoded(
            match r {
                Ok(p) => Ok(p.1),
                Err(e) => Err(e),
            },
            status,
            body@,
            expect,
        ),
        r matches Ok(p) ==> header_view(p.0) == match link_header {
            Some(h) => crate::links::link_header_values(h@),
            None => None::<Seq<LinkValueModel>>,
        },
{
    let link = match link_header {
        Some(h) => parse_link_header(h),
        None => None,
    };
    match decode(status, body, expect) {
        Ok(p) => Ok((link, p)),
        Err(e) => Err(e),
    }
}

/// A response with no content decodes, whatever its body holds and whatever
/// was expected, to the empty payload: never to a decode error.
pub proof fn lemma_no_content_is_empty(r: Result<Payload, ClientError>, body: Seq<u8>, expect: Expect)
    requires
        decoded(r, NO_CONTENT, body, expect),
    ensures
        r == Ok::<Payload, ClientError>(Payload::Empty),
{
}

/// A response with status 200 where JSON is expected decodes to its body
/// exactly where the body is one JSON document, and to a decode error where
/// it is not.
pub proof fn lemma_ok_decodes_json_or_fails(r: Result<Payload, ClientError>, body: Seq<u8>)
    requires
        decoded(r, 200, body, Expect::Json),
    ensures
        is_json_document(body) ==> (r matches Ok(Payload::Json(b)) && b@ == body),
        !is_json_document(body) ==> r == Err::<Payload, ClientError>(ClientError::Decode),
{
}

/// A response with a status outside 200 to 299 decodes, whatever its body
/// and whatever was expected, to an API error that carries that status.
pub proof fn lemma_failure_carries_status(
    r: Result<Payload, ClientError>,
    status: u16,
    body: Seq<u8>,
    expect: Expect,
)
    requires
        decoded(r, status, body, expect),
        status < 200 || status >= 300,
    ensures
        r matches Err(ClientError::Api { status: s, .. }) && s == status,
{
}

} // verus!
