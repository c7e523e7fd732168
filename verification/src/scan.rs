//! Verified byte scanning: first-occurrence search of a byte pattern and
//! range copying, the building blocks of the multipart parser.

use vstd::prelude::*;

verus! {

/// Whether `needle` occurs in `hay` at position `i`.
pub open spec fn spec_match_at(hay: Seq<u8>, needle: Seq<u8>, i: int) -> bool {
    0 <= i && i + needle.len() <= hay.len() && hay.subrange(i, i + needle.len()) == needle
}

/// The first position at or after `from` where `needle` occurs in `hay`.
pub open spec fn spec_find(hay: Seq<u8>, needle: Seq<u8>, from: int) -> Option<int>
    decreases hay.len() - from + 1,
{
    if from < 0 || from + needle.len() > hay.len() {
        None
    } else if spec_match_at(hay, needle, from) {
        Some(from)
    } else {
        spec_find(hay, needle, from + 1)
    }
}

/// A found position is a match, and the first one at or after `from`.
pub proof fn lemma_find_spec(hay: Seq<u8>, needle: Seq<u8>, from: int)
    requires
        from >= 0,
    ensures
        spec_find(hay, needle, from) matches Some(i) ==> from <= i && spec_match_at(hay, needle,
            i) && forall|j: int| from <= j < i ==> !spec_match_at(hay, needle, j),
        spec_find(hay, needle, from) is None ==> forall|j: int|
            j >= from ==> !spec_match_at(hay, needle, j),
    decreases hay.len() - from + 1,
{
    if from < 0 || from + needle.len() > hay.len() {
    } else if spec_match_at(hay, needle, from) {
    } else {
        lemma_find_spec(hay, needle, from + 1);
    }
}

/// Compares `needle` against `hay` at position `i`.
fn match_at(hay: &Vec<u8>, needle: &Vec<u8>, i: usize) -> (r: bool)
    requires
        i + needle@.len() <= hay@.len(),
    ensures
        r == spec_match_at(hay@, needle@, i as int),
{
    let hl: usize = hay.len();
    let n = needle.len();
    let mut k: usize = 0;
    while k < n
        invariant
            hl == hay@.len(),
            n == needle@.len(),
            i + n <= hl,
            k <= n,
            forall|j: int| 0 <= j < k ==> hay@[i + j] == needle@[j],
        decreases n - k,
    {
        if hay[i + k] != needle[k] {
            proof {
                assert(hay@.subrange(i as int, i + needle@.len())[k as int] != needle@[k as int]);
            }
            return false;
        }
        k = k + 1;
    }
    proof {
        assert(hay@.subrange(i as int, i + needle@.len()) =~= needle@);
    }
    true
}

/// Finds the first occurrence of `needle` in `hay` at or after `from`.
pub fn find_bytes(hay: &Vec<u8>, needle: &Vec<u8>, from: usize) -> (r: Option<usize>)
    ensures
        match r {
            Some(i) => from <= i && spec_find(hay@, needle@, from as int) == Some(i as int),
            None => spec_find(hay@, needle@, from as int) is None,
        },
{
    if needle.len() > hay.len() || from > hay.len() - needle.len() {
        proof {
            lemma_find_none_past(hay@, needle@, from as int);
        }
        return None;
    }
    let last = hay.len() - needle.len();
    let mut i: usize = from;
    while i < last
        invariant
            needle@.len() + last == hay@.len(),
            from <= i <= last,
            spec_find(hay@, needle@, from as int) == spec_find(hay@, needle@, i as int),
        decreases last - i,
    {
        if match_at(hay, needle, i) {
            return Some(i);
        }
        i = i + 1;
    }
    if match_at(hay, needle, last) {
        return Some(last);
    }
    proof {
        lemma_find_none_past(hay@, needle@, last + 1);
    }
    None
}

/// Past the last feasible position, nothing is found.
proof fn lemma_find_none_past(hay: Seq<u8>, needle: Seq<u8>, from: int)
    requires
        from + needle.len() > hay.len() || from > hay.len(),
    ensures
        spec_find(hay, needle, from) is None,
{
}

/// Copies `v[from .. to]` out into a fresh vector.
pub fn copy_range(v: &Vec<u8>, from: usize, to: usize) -> (r: Vec<u8>)
    requires
        from <= to <= v@.len(),
    ensures
        r@ == v@.subrange(from as int, to as int),
{
    let mut out: Vec<u8> = Vec::new();
    let mut i: usize = from;
    while i < to
        invariant
            from <= i <= to <= v@.len(),
            out@ =~= v@.subrange(from as int, i as int),
        decreases to - i,
    {
        out.push(v[i]);
        proof {
            assert(out@ =~= v@.subrange(from as int, i + 1));
        }
        i = i + 1;
    }
    proof {
        assert(out@ =~= v@.subrange(from as int, to as int));
    }
    out
}

} // verus!
