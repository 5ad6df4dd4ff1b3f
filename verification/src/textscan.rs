//! Substring search over byte strings.
//!
//! The model-availability check looks for the configured model name as a
//! raw substring of the captured `list` output; this module provides the
//! search and its specification.

use vstd::prelude::*;

verus! {

/// The pattern occurs in `hay` starting at position `i`.
pub open spec fn match_at(hay: Seq<u8>, pat: Seq<u8>, i: int) -> bool {
    &&& 0 <= i
    &&& i + pat.len() <= hay.len()
    &&& forall|j: int| 0 <= j < pat.len() ==> hay[i + j] == pat[j]
}

/// The pattern occurs somewhere in `hay`.
pub open spec fn contains_pattern(hay: Seq<u8>, pat: Seq<u8>) -> bool {
    exists|i: int| match_at(hay, pat, i)
}

pub(crate) fn match_at_exec(hay: &[u8], pat: &[u8], i: usize) -> (r: bool)
    requires
        i + pat@.len() <= hay@.len(),
    ensures
        r == match_at(hay@, pat@, i as int),
{
    let hn: usize = hay.len();
    let mut j: usize = 0;
    while j < pat.len()
        invariant
            i + pat@.len() <= hay@.len(),
            hn == hay@.len(),
            j <= pat@.len(),
            forall|k: int| 0 <= k < j ==> hay@[i + k] == pat@[k],
        decreases pat@.len() - j,
    {
        if hay[i + j] != pat[j] {
            assert(!match_at(hay@, pat@, i as int));
            return false;
        }
        j += 1;
    }
    true
}

/// Whether `pat` occurs as a contiguous run of bytes anywhere in `hay`.
pub fn contains_bytes(hay: &[u8], pat: &[u8]) -> (r: bool)
    ensures
        r == contains_pattern(hay@, pat@),
{
    if pat.len() > hay.len() {
        assert(forall|i: int| !match_at(hay@, pat@, i));
        return false;
    }
    if pat.len() == 0 {
        assert(match_at(hay@, pat@, 0));
        return true;
    }
    let last = hay.len() - pat.len();
    let mut i: usize = 0;
    while i <= last
        invariant
            1 <= pat@.len() <= hay@.len(),
            hay@.len() <= usize::MAX,
            last == hay@.len() - pat@.len(),
            i <= last + 1,
            forall|k: int| 0 <= k < i ==> !match_at(hay@, pat@, k),
        decreases last + 1 - i,
    {
        if match_at_exec(hay, pat, i) {
            return true;
        }
        i += 1;
    }
    assert(forall|k: int| !match_at(hay@, pat@, k));
    false
}

} // verus!
