//! Searching a byte string for a pattern.

use vstd::prelude::*;

verus! {

/// `needle` stands in `hay` at index `at`.
pub open spec fn occurs_at(hay: Seq<u8>, needle: Seq<u8>, at: int) -> bool {
    &&& 0 <= at
    &&& at + needle.len() <= hay.len()
    &&& hay.subrange(at, at + needle.len()) == needle
}

/// The least index at or after `from` at which `needle` stands in `hay`, if
/// there is one.
pub open spec fn find_from(hay: Seq<u8>, needle: Seq<u8>, from: int) -> Option<int>
    decreases hay.len() + 1 - from,
{
    if from < 0 || from + needle.len() > hay.len() {
        None
    } else if occurs_at(hay, needle, from) {
        Some(from)
    } else {
        find_from(hay, needle, from + 1)
    }
}

/// What [`find_from`] finds is an occurrence, and no occurrence lies between
/// `from` and it; where it finds nothing, there is no occurrence at or after
/// `from`.
pub proof fn lemma_find_from_is_first(hay: Seq<u8>, needle: Seq<u8>, from: int)
    requires
        0 <= from,
    ensures
        match find_from(hay, needle, from) {
            Some(at) => {
                &&& from <= at
                &&& occurs_at(hay, needle, at)
                &&& forall|j: int| from <= j < at ==> !occurs_at(hay, needle, j)
            },
            None => forall|j: int| from <= j ==> !occurs_at(hay, needle, j),
        },
    decreases hay.len() + 1 - from,
{
    if from + needle.len() > hay.len() {
    } else if occurs_at(hay, needle, from) {
    } else {
        lemma_find_from_is_first(hay, needle, from + 1);
    }
}

/// Whether `needle` stands in `hay` at index `at`.
pub fn matches_at(hay: &[u8], needle: &[u8], at: usize) -> (found: bool)
    ensures
        found == occurs_at(hay@, needle@, at as int),
{
    if needle.len() > hay.len() || at > hay.len() - needle.len() {
        return false;
    }
    let mut k: usize = 0;
    while k < needle.len()
        invariant
            k <= needle.len(),
            at + needle.len() <= hay.len(),
            forall|j: int| 0 <= j < k ==> hay@[at + j] == needle@[j],
        decreases needle.len() - k,
    {
        if hay[at + k] != needle[k] {
            return false;
        }
        k += 1;
    }
    assert(hay@.subrange(at as int, at + needle@.len()) =~= needle@);
    true
}

/// The first index at or after `from` at which `needle` stands in `hay`.
pub fn find_bytes(hay: &[u8], needle: &[u8], from: usize) -> (found: Option<usize>)
    ensures
        match found {
            Some(at) => {
                &&& find_from(hay@, needle@, from as int) == Some(at as int)
                &&& from <= at
                &&& occurs_at(hay@, needle@, at as int)
            },
            None => find_from(hay@, needle@, from as int) is None,
        },
{
    if needle.len() > hay.len() || from > hay.len() - needle.len() {
        return None;
    }
    let last: usize = hay.len() - needle.len();
    let mut at: usize = from;
    loop
        invariant
            from <= at <= last,
            last == hay.len() - needle.len(),
            find_from(hay@, needle@, from as int) == find_from(hay@, needle@, at as int),
        decreases last - at,
    {
        if matches_at(hay, needle, at) {
            return Some(at);
        }
        if at == last {
            assert(find_from(hay@, needle@, at + 1) is None);
            return None;
        }
        at += 1;
    }
}

} // verus!
