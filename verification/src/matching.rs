//! Case-insensitive substring matching over byte strings.
//!
//! Identifying text from the platform (window titles, audio stream
//! descriptions) is matched against the application identifier by
//! case-insensitive substring containment, deliberately loose to tolerate
//! platform naming variance. Case folding is ASCII: upper-case letters map to
//! their lower-case counterparts and every other byte is left alone.

use vstd::prelude::*;

verus! {

/// ASCII case folding of one byte: `A`..`Z` map to `a`..`z`.
pub open spec fn lower_byte(b: u8) -> u8 {
    if 65 <= b && b <= 90 {
        (b + 32) as u8
    } else {
        b
    }
}

/// ASCII case folding of a byte string.
pub open spec fn lower_seq(s: Seq<u8>) -> Seq<u8> {
    s.map_values(|b: u8| lower_byte(b))
}

/// `needle` occurs in `hay` starting exactly at position `i`.
pub open spec fn match_at(needle: Seq<u8>, hay: Seq<u8>, i: int) -> bool {
    &&& 0 <= i
    &&& i + needle.len() <= hay.len()
    &&& hay.subrange(i, i + needle.len() as int) == needle
}

/// `needle` occurs somewhere in `hay`.
pub open spec fn is_substring(needle: Seq<u8>, hay: Seq<u8>) -> bool {
    exists|i: int| match_at(needle, hay, i)
}

/// The identifier occurs in the text, ignoring ASCII case on both sides.
pub open spec fn ci_matches(text: Seq<u8>, ident: Seq<u8>) -> bool {
    is_substring(lower_seq(ident), lower_seq(text))
}

/// ASCII-lowercases a byte string.
pub fn to_ascii_lowercase(v: &Vec<u8>) -> (r: Vec<u8>)
    ensures
        r@ == lower_seq(v@),
{
    let mut r: Vec<u8> = Vec::new();
    let mut i: usize = 0;
    while i < v.len()
        invariant
            i <= v@.len(),
            r@.len() == i,
            forall|k: int| 0 <= k < i ==> r@[k] == lower_byte(v@[k]),
        decreases v@.len() - i,
    {
        let b = v[i];
        if 65 <= b && b <= 90 {
            r.push(b + 32);
        } else {
            r.push(b);
        }
        i = i + 1;
    }
    proof {
        assert(r@ =~= lower_seq(v@));
    }
    r
}

/// Tests whether `needle` occurs in `hay` starting exactly at position `i`.
fn match_at_index(hay: &Vec<u8>, needle: &Vec<u8>, i: usize) -> (r: bool)
    requires
        i + needle@.len() <= hay@.len(),
    ensures
        r == match_at(needle@, hay@, i as int),
{
    let hay_len = hay.len();
    let mut j: usize = 0;
    while j < needle.len()
        invariant
            j <= needle@.len(),
            i + needle@.len() <= hay@.len(),
            hay_len == hay@.len(),
            forall|k: int| 0 <= k < j ==> hay@[i + k] == needle@[k],
        decreases needle@.len() - j,
    {
        if hay[i + j] != needle[j] {
            proof {
                assert(hay@.subrange(i as int, i + needle@.len() as int)[j as int]
                    == hay@[i + j]);
            }
            return false;
        }
        j = j + 1;
    }
    proof {
        assert(hay@.subrange(i as int, i + needle@.len() as int) =~= needle@);
    }
    true
}

/// Tests whether `needle` occurs anywhere in `hay`.
pub fn contains_subsequence(hay: &Vec<u8>, needle: &Vec<u8>) -> (r: bool)
    ensures
        r == is_substring(needle@, hay@),
{
    if needle.len() > hay.len() {
        return false;
    }
    let bound = hay.len() - needle.len();
    let mut i: usize = 0;
    loop
        invariant
            needle@.len() <= hay@.len(),
            bound == hay@.len() - needle@.len(),
            i <= bound,
            forall|k: int| 0 <= k < i ==> !match_at(needle@, hay@, k),
        decreases bound - i,
    {
        if match_at_index(hay, needle, i) {
            assert(match_at(needle@, hay@, i as int));
            return true;
        }
        if i == bound {
            assert(forall|k: int| !match_at(needle@, hay@, k));
            return false;
        }
        i = i + 1;
    }
}

/// Case-insensitive substring match of the application identifier against a
/// piece of identifying text from the platform.
pub fn identifier_matches(text: &Vec<u8>, ident: &Vec<u8>) -> (r: bool)
    ensures
        r == ci_matches(text@, ident@),
{
    let folded_text = to_ascii_lowercase(text);
    let folded_ident = to_ascii_lowercase(ident);
    contains_subsequence(&folded_text, &folded_ident)
}

} // verus!
