//! What a request carries: method, URL, headers and body.
use vstd::prelude::*;
use vstd::string::*;

verus! {

/// The HTTP methods the API is called with.
#[derive(Debug, Clone, Copy, PartialEq, Eq, Structural)]
pub enum Method {
    Get,
    Post,
    Put,
    Patch,
    Delete,
}

pub const ACCEPT: &'static str = "accept";
pub const CONTENT_TYPE: &'static str = "content-type";
pub const AUTHORIZATION: &'static str = "authorization";
pub const UPLOAD_CONTENT_TYPE: &'static str = "x-upload-content-type";
pub const UPLOAD_CONTENT_LENGTH: &'static str = "x-upload-content-length";
pub const JSON: &'static str = "application/json";
pub const OCTET_STREAM: &'static str = "application/octet-stream";
pub const BEARER: &'static str = "Bearer ";

/// A header as plain text: its name and its value.
pub type HeaderModel = (Seq<char>, Seq<char>);

pub open spec fn headers_view(hs: Seq<(String, String)>) -> Seq<HeaderModel> {
    hs.map_values(|h: (String, String)| (h.0@, h.1@))
}

/// The value of the authorization header for a token.
pub open spec fn bearer(token: Seq<char>) -> Seq<char> {
    BEARER@ + token
}

/// The headers of a JSON request: accept and content type JSON, and the
/// bearer token.
pub open spec fn json_headers(token: Seq<char>) -> Seq<HeaderModel> {
    seq![(ACCEPT@, JSON@), (CONTENT_TYPE@, JSON@), (AUTHORIZATION@, bearer(token))]
}

/// The headers of an upload of `len` bytes of type `mime`: accept JSON, the
/// content type given, the upload's type and length, and the bearer token.
pub open spec fn upload_headers(token: Seq<char>, mime: Seq<char>, len: nat) -> Seq<HeaderModel> {
    seq![
        (ACCEPT@, JSON@),
        (CONTENT_TYPE@, mime),
        (UPLOAD_CONTENT_TYPE@, OCTET_STREAM@),
        (UPLOAD_CONTENT_LENGTH@, decimal(len)),
        (AUTHORIZATION@, bearer(token)),
    ]
}

pub const DIGITS: &'static str = "0123456789";

/// The decimal digit for `d`, below ten.
pub open spec fn digit(d: nat) -> char {
    DIGITS@[d as int]
}

/// `n` written in decimal, without leading zeros.
pub open spec fn decimal(n: nat) -> Seq<char>
    decreases n,
{
    if n < 10 {
        seq![digit(n)]
    } else {
        decimal(n / 10).push(digit(n % 10))
    }
}

/// `n` written in decimal, without leading zeros.
pub fn decimal_text(n: usize) -> (r: String)
    ensures
        r@ == decimal(n as nat),
    decreases n,
{
    proof {
        reveal_strlit("0123456789");
    }
    let d = n % 10;
    let last = DIGITS.substring_char(d, d + 1);
    assert(last@ =~= seq![digit(d as nat)]);
    if n < 10 {
        String::from_str(last)
    } else {
        let mut s = decimal_text(n / 10);
        s.append(last);
        assert(s@ =~= decimal(n as nat));
        s
    }
}

/// Whether a character may stand in a header value: a visible character,
/// a space or a tab, and no control character.
pub open spec fn header_char(c: char) -> bool {
    (c as u32 >= 32 && c as u32 != 127) || c as u32 == 9
}

/// Whether text may be a header value.
pub open spec fn is_header_value(s: Seq<char>) -> bool {
    forall|i: int| 0 <= i < s.len() ==> #[trigger] header_char(s[i])
}

/// Whether text may be a header value.
pub fn header_value_ok(s: &str) -> (r: bool)
    ensures
        r == is_header_value(s@),
{
    let n = s.unicode_len();
    let mut i: usize = 0;
    while i < n
        invariant
            n == s@.len(),
            i <= n,
            forall|j: int| 0 <= j < i ==> #[trigger] header_char(s@[j]),
        decreases n - i,
    {
        let c = s.get_char(i);
        if !((c as u32 >= 32 && c as u32 != 127) || c as u32 == 9) {
            assert(!header_char(s@[i as int]));
            return false;
        }
        i = i + 1;
    }
    true
}

/// A request ready to be sent: the method, the absolute target, a valid
/// URL, the headers in the order they are set, and the body.
#[derive(Debug, Clone, PartialEq, Eq)]
pub struct RequestPlan {
    pub method: Method,
    pub target: String,
    pub headers: Vec<(String, String)>,
    pub body: Option<Vec<u8>>,
}

pub open spec fn body_view(b: Option<Vec<u8>>) -> Option<Seq<u8>> {
    match b {
        Some(v) => Some(v@),
        None => None,
    }
}

} // verus!
