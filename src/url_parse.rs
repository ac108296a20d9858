//! The outside URL parser, as far as the library relies on it.
use vstd::prelude::*;

verus! {

/// Whether `url::Url::parse` accepts the text as an absolute URL.
pub uninterp spec fn url_accepts(s: Seq<char>) -> bool;

/// Relies on `reqwest::Url::parse` (`url::Url::parse`): whether it succeeds,
/// which depends on the text alone.
#[verifier::external_body]
pub(crate) fn url_parses(s: &str) -> (r: bool)
    ensures
        r == url_accepts(s@),
{
    reqwest::Url::parse(s).is_ok()
}

} // verus!
