//! The failures a call can end in.
use vstd::prelude::*;

verus! {

/// Why a call failed.
#[derive(Debug, Clone, PartialEq, Eq)]
pub enum ClientError {
    /// The transport could not be set up.
    Construction,
    /// The target does not form a valid URL.
    UrlParse,
    /// The request could not be sent or its response not read.
    Transport,
    /// The server answered with a status outside the success range; the body,
    /// where there was one, as text.
    Api { status: u16, body_text: Option<String> },
    /// A successful response whose body does not have the expected shape.
    Decode,
}

} // verus!
