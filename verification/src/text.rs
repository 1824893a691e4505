//! Byte-string predicates for the engine's own page checks: whether the
//! current URL leads with the authenticated landing prefix, and whether a
//! page body shows one of the welcome markers.

use vstd::prelude::*;
use vstd::string::StringSliceAdditionalSpecFns;

verus! {

/// `p` is a prefix of `s`.
pub open spec fn is_prefix_of(p: Seq<u8>, s: Seq<u8>) -> bool {
    p.len() <= s.len() && s.subrange(0, p.len() as int) == p
}

/// `n` occurs somewhere in `s` as a contiguous run.
pub open spec fn has_substring(s: Seq<u8>, n: Seq<u8>) -> bool {
    exists|i: int| 0 <= i <= s.len() - n.len() && #[trigger] s.subrange(i, i + n.len() as int)
        == n
}

/// Whether `s` starts with `p`.
pub fn bytes_have_prefix(s: &[u8], p: &[u8]) -> (r: bool)
    ensures
        r == is_prefix_of(p@, s@),
{
    if p.len() > s.len() {
        return false;
    }
    let mut i: usize = 0;
    while i < p.len()
        invariant
            p@.len() <= s@.len(),
            i <= p@.len(),
            forall|j: int| 0 <= j < i ==> s@[j] == p@[j],
        decreases p@.len() - i,
    {
        if s[i] != p[i] {
            proof {
                assert(s@.subrange(0, p@.len() as int)[i as int] != p@[i as int]);
            }
            return false;
        }
        i = i + 1;
    }
    proof {
        assert(s@.subrange(0, p@.len() as int) =~= p@);
    }
    true
}

/// Whether `n` matches `s` at position `start`.
fn matches_at(s: &[u8], n: &[u8], start: usize) -> (r: bool)
    requires
        start + n@.len() <= s@.len(),
    ensures
        r == (s@.subrange(start as int, start as int + n@.len() as int) == n@),
{
    let slen = s.len();
    let mut j: usize = 0;
    while j < n.len()
        invariant
            start + n@.len() <= s@.len(),
            s@.len() <= usize::MAX,
            j <= n@.len(),
            forall|l: int| 0 <= l < j ==> s@[start + l] == n@[l],
        decreases n@.len() - j,
    {
        if s[start + j] != n[j] {
            proof {
                assert(s@.subrange(start as int, start as int + n@.len() as int)[j as int]
                    != n@[j as int]);
            }
            return false;
        }
        j = j + 1;
    }
    proof {
        assert(s@.subrange(start as int, start as int + n@.len() as int) =~= n@);
    }
    true
}

/// Whether `n` occurs anywhere in `s`.
pub fn bytes_have_substring(s: &[u8], n: &[u8]) -> (r: bool)
    ensures
        r == has_substring(s@, n@),
{
    if n.len() > s.len() {
        return false;
    }
    if n.len() == 0 {
        proof {
            assert(has_substring(s@, n@)) by {
                assert(s@.subrange(0, 0 + n@.len() as int) =~= n@);
            }
        }
        return true;
    }
    let bound = s.len() - n.len();
    let mut start: usize = 0;
    while start <= bound
        invariant
            1 <= n@.len() <= s@.len(),
            s@.len() <= usize::MAX,
            bound == s@.len() - n@.len(),
            start <= bound + 1,
            forall|k: int|
                0 <= k < start ==> #[trigger] s@.subrange(k, k + n@.len() as int) != n@,
        decreases bound - start + 1,
    {
        if matches_at(s, n, start) {
            return true;
        }
        start = start + 1;
    }
    false
}

/// The prefix that marks the authenticated landing page.
pub open spec fn spec_feed_prefix() -> Seq<u8> {
    "https://www.linkedin.com/feed/".spec_bytes()
}

/// The authenticated-landing check: whether the current URL leads with
/// the landing-feed prefix. One of the four authentication signals.
pub fn url_marks_feed(url: &str) -> (r: bool)
    ensures
        r == is_prefix_of(spec_feed_prefix(), url.spec_bytes()),
{
    bytes_have_prefix(url.as_bytes(), "https://www.linkedin.com/feed/".as_bytes())
}

/// The welcome-message check: whether the page body shows either welcome
/// marker. One of the four authentication signals.
pub fn body_shows_welcome(text: &str) -> (r: bool)
    ensures
        r == (has_substring(text.spec_bytes(), "Welcome".spec_bytes()) || has_substring(
            text.spec_bytes(),
            "Dashboard".spec_bytes(),
        )),
{
    bytes_have_substring(text.as_bytes(), "Welcome".as_bytes()) || bytes_have_substring(
        text.as_bytes(),
        "Dashboard".as_bytes(),
    )
}

} // verus!
