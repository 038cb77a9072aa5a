//! Byte-string analysis behind the binding layer.
//!
//! Text handed to the native webview API crosses a C boundary, where a NUL
//! byte would silently end the string early; and on X11 the embedding
//! strategy is picked by inspecting the session manager's address and the
//! name of its process.  The functions here do that plain-value work.

use vstd::prelude::*;

verus! {

/// The longest prefix of `s` that holds no NUL byte.
///
/// A C string ends at the first NUL, so this is exactly the portion of `s`
/// that survives the trip across the C boundary.
pub fn prefix_to_nul(s: &[u8]) -> (r: Vec<u8>)
    ensures
        r@.len() <= s@.len(),
        r@ == s@.subrange(0, r@.len() as int),
        forall|i: int| 0 <= i < r@.len() ==> r@[i] != 0,
        r@.len() < s@.len() ==> s@[r@.len() as int] == 0,
{
    let mut out: Vec<u8> = Vec::new();
    let mut i: usize = 0;
    while i < s.len()
        invariant
            i <= s@.len(),
            out@.len() == i,
            forall|j: int| 0 <= j < i ==> out@[j] == s@[j],
            forall|j: int| 0 <= j < i ==> s@[j] != 0,
        decreases s@.len() - i,
    {
        if s[i] == 0 {
            assert(out@ =~= s@.subrange(0, i as int));
            return out;
        }
        out.push(s[i]);
        i += 1;
    }
    assert(out@ =~= s@.subrange(0, i as int));
    out
}

/// The byte that separates the fields of a session manager address.
pub const SEPARATOR: u8 = 47;

/// The part of `s` after its last `/`, or all of `s` when it holds none.
///
/// A session manager address ends in the process id of the manager; this
/// extracts that final field.
pub fn last_segment(s: &[u8]) -> (r: Vec<u8>)
    ensures
        r@.len() <= s@.len(),
        r@ == s@.subrange(s@.len() - r@.len(), s@.len() as int),
        forall|i: int| 0 <= i < r@.len() ==> r@[i] != SEPARATOR,
        r@.len() < s@.len() ==> s@[s@.len() - r@.len() - 1] == SEPARATOR,
{
    let mut start: usize = 0;
    let mut i: usize = 0;
    while i < s.len()
        invariant
            start <= i <= s@.len(),
            forall|j: int| start <= j < i ==> s@[j] != SEPARATOR,
            start > 0 ==> s@[start - 1] == SEPARATOR,
        decreases s@.len() - i,
    {
        if s[i] == SEPARATOR {
            start = i + 1;
        }
        i += 1;
    }
    let mut out: Vec<u8> = Vec::new();
    let mut k: usize = start;
    while k < s.len()
        invariant
            start <= k <= s@.len(),
            out@.len() == k - start,
            forall|j: int| 0 <= j < out@.len() ==> out@[j] == s@[start + j],
        decreases s@.len() - k,
    {
        out.push(s[k]);
        k += 1;
    }
    assert(out@ =~= s@.subrange(start as int, s@.len() as int));
    out
}

/// `needle` occurs in `haystack` starting at position `i`.
pub open spec fn match_at(haystack: Seq<u8>, needle: Seq<u8>, i: int) -> bool {
    0 <= i && i + needle.len() <= haystack.len() && haystack.subrange(
        i,
        i + needle.len(),
    ) == needle
}

/// Whether `needle` occurs anywhere in `haystack`.
///
/// The session-manager detection asks this of a process listing and a
/// process name.  An empty needle occurs everywhere.
pub fn contains_bytes(haystack: &[u8], needle: &[u8]) -> (r: bool)
    ensures
        r == exists|i: int| match_at(haystack@, needle@, i),
{
    if needle.len() > haystack.len() {
        return false;
    }
    let last: usize = haystack.len() - needle.len();
    let mut i: usize = 0;
    while i <= last
        invariant
            haystack@.len() <= usize::MAX,
            needle@.len() <= haystack@.len(),
            last == haystack@.len() - needle@.len(),
            i <= last + 1,
            forall|k: int| 0 <= k < i ==> !match_at(haystack@, needle@, k),
        decreases last - i + 1,
    {
        let mut j: usize = 0;
        while j < needle.len() && haystack[i + j] == needle[j]
            invariant
                haystack@.len() <= usize::MAX,
                i + needle@.len() <= haystack@.len(),
                j <= needle@.len(),
                forall|t: int| 0 <= t < j ==> haystack@[i + t] == needle@[t],
            decreases needle@.len() - j,
        {
            j += 1;
        }
        if j == needle.len() {
            assert(haystack@.subrange(i as int, i + needle@.len()) =~= needle@);
            assert(match_at(haystack@, needle@, i as int));
            return true;
        }
        assert(!match_at(haystack@, needle@, i as int)) by {
            if haystack@.subrange(i as int, i + needle@.len()) == needle@ {
                assert(haystack@.subrange(i as int, i + needle@.len())[j as int] == haystack@[i
                    + j]);
            }
        }
        i += 1;
    }
    assert(forall|k: int| match_at(haystack@, needle@, k) ==> 0 <= k < i);
    false
}

} // verus!
