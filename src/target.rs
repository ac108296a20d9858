//! Turning a request target into an absolute URL.
use vstd::prelude::*;
use vstd::string::*;

verus! {

/// The host that relative targets are resolved against.
pub const DEFAULT_HOST: &'static str = "https://api.giphy.com/v1";

/// The prefix that marks a target as an absolute secure URL.
pub const SECURE_SCHEME: &'static str = "https://";

/// Whether `s` begins with `p`.
pub open spec fn has_prefix(s: Seq<char>, p: Seq<char>) -> bool {
    p.len() <= s.len() && s.subrange(0, p.len() as int) == p
}

/// The absolute URL that a target denotes: an absolute secure URL stands as
/// it is, anything else is appended to the default host.
pub open spec fn resolved(target: Seq<char>) -> Seq<char> {
    if has_prefix(target, SECURE_SCHEME@) {
        target
    } else {
        DEFAULT_HOST@ + target
    }
}

/// Whether `s` begins with `p`.
pub fn starts_with(s: &str, p: &str) -> (r: bool)
    ensures
        r == has_prefix(s@, p@),
{
    let n = s.unicode_len();
    let m = p.unicode_len();
    if m > n {
        return false;
    }
    let mut i: usize = 0;
    while i < m
        invariant
            m == p@.len(),
            n == s@.len(),
            m <= n,
            i <= m,
            forall|j: int| 0 <= j < i ==> s@[j] == p@[j],
        decreases m - i,
    {
        if s.get_char(i) != p.get_char(i) {
            assert(s@.subrange(0, m as int)[i as int] != p@[i as int]);
            return false;
        }
        i = i + 1;
    }
    assert(s@.subrange(0, m as int) =~= p@);
    true
}

/// Resolves a target: an absolute secure URL is kept unchanged, a relative
/// path is appended to [`DEFAULT_HOST`].
pub fn resolve_target(target: &str) -> (r: String)
    ensures
        r@ == resolved(target@),
{
    if starts_with(target, SECURE_SCHEME) {
        target.to_string()
    } else {
        String::from_str(DEFAULT_HOST).concat(target)
    }
}

} // verus!
