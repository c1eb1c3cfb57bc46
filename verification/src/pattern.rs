//! Byte pattern search used by the reference guest's policy rules and by the
//! fuel classification of engine error messages.

use vstd::prelude::*;

verus! {

/// The needle occurs in the haystack starting at index `i`.
pub open spec fn matches_at(hay: Seq<u8>, needle: Seq<u8>, i: int) -> bool {
    &&& 0 <= i
    &&& i + needle.len() <= hay.len()
    &&& forall|j: int| 0 <= j < needle.len() ==> hay[i + j] == needle[j]
}

/// The needle occurs somewhere in the haystack.
pub open spec fn contains_pattern(hay: Seq<u8>, needle: Seq<u8>) -> bool {
    exists|i: int| matches_at(hay, needle, i)
}

/// Compares the needle against the haystack window starting at `i`.
pub(crate) fn match_at(hay: &[u8], needle: &[u8], i: usize) -> (r: bool)
    requires
        i + needle@.len() <= hay@.len(),
    ensures
        r == matches_at(hay@, needle@, i as int),
{
    let hay_len: usize = hay.len();
    let mut j: usize = 0;
    while j < needle.len()
        invariant
            hay_len == hay@.len(),
            i + needle@.len() <= hay@.len(),
            j <= needle@.len(),
            forall|m: int| 0 <= m < j ==> hay@[i + m] == needle@[m],
        decreases needle@.len() - j,
    {
        if hay[i + j] != needle[j] {
            assert(!matches_at(hay@, needle@, i as int));
            return false;
        }
        j += 1;
    }
    true
}

/// Linear byte pattern search: decides whether `needle` occurs in `hay`.
pub fn pattern_match(hay: &[u8], needle: &[u8]) -> (found: bool)
    ensures
        found == contains_pattern(hay@, needle@),
{
    if needle.len() == 0 {
        assert(matches_at(hay@, needle@, 0));
        return true;
    }
    if needle.len() > hay.len() {
        assert(forall|i: int| !matches_at(hay@, needle@, i));
        return false;
    }
    let bound: usize = hay.len() - needle.len();
    let mut i: usize = 0;
    while i <= bound
        invariant
            hay@.len() <= usize::MAX,
            1 <= needle@.len() <= hay@.len(),
            bound == hay@.len() - needle@.len(),
            i <= bound + 1,
            forall|k: int| 0 <= k < i ==> !matches_at(hay@, needle@, k),
        decreases bound + 1 - i,
    {
        if match_at(hay, needle, i) {
            return true;
        }
        i += 1;
    }
    assert(forall|k: int| matches_at(hay@, needle@, k) ==> k <= bound);
    false
}

} // verus!
