//! Small verified helpers for working with string slices character by
//! character.  The rest of the crate builds its path and key parsing on them.

use vstd::prelude::*;
use vstd::string::*;

verus! {

/// Splitting a character sequence at the first occurrence of `sep`: the two
/// halves around that occurrence, or `None` when `sep` does not occur.
pub open spec fn spec_split_once(s: Seq<char>, sep: char) -> Option<(Seq<char>, Seq<char>)> {
    match s.index_of_first(sep) {
        None => None,
        Some(i) => Some((s.subrange(0, i), s.subrange(i + 1, s.len() as int))),
    }
}

/// True exactly when the two slices hold the same sequence of characters.
pub fn str_eq(a: &str, b: &str) -> (r: bool)
    ensures
        r == (a@ == b@),
{
    let a_len = a.unicode_len();
    let b_len = b.unicode_len();
    if a_len != b_len {
        return false;
    }
    let mut i: usize = 0;
    while i < a_len
        invariant
            a_len == a@.len(),
            b_len == b@.len(),
            a_len == b_len,
            i <= a_len,
            forall|j: int| 0 <= j < i ==> a@[j] == b@[j],
        decreases a_len - i,
    {
        if a.get_char(i) != b.get_char(i) {
            return false;
        }
        i += 1;
    }
    assert(a@ =~= b@);
    true
}

/// Splits `s` at the first occurrence of `sep`, which is not part of either
/// half; returns `None` when `sep` does not occur at all.
pub fn split_once_char<'a>(s: &'a str, sep: char) -> (r: Option<(&'a str, &'a str)>)
    ensures
        match r {
            None => spec_split_once(s@, sep) is None && !s@.contains(sep),
            Some((head, tail)) => spec_split_once(s@, sep) == Some((head@, tail@))
                && s@ == head@ + seq![sep] + tail@
                && !head@.contains(sep),
        },
{
    let len = s.unicode_len();
    let mut i: usize = 0;
    while i < len
        invariant
            len == s@.len(),
            i <= len,
            forall|j: int| 0 <= j < i ==> s@[j] != sep,
        decreases len - i,
    {
        if s.get_char(i) == sep {
            let head = s.substring_char(0, i);
            let tail = s.substring_char(i + 1, len);
            proof {
                s@.index_of_first_ensures(sep);
                assert(s@.contains(sep)) by {
                    assert(s@[i as int] == sep);
                }
                assert(s@.index_of_first(sep) == Some(i as int));
                assert(s@ =~= head@ + seq![sep] + tail@);
                assert(forall|j: int| 0 <= j < head@.len() ==> head@[j] != sep);
                assert(!head@.contains(sep));
            }
            return Some((head, tail));
        }
        i += 1;
    }
    proof {
        s@.index_of_first_ensures(sep);
        assert(!s@.contains(sep)) by {
            assert(forall|j: int| 0 <= j < s@.len() ==> s@[j] != sep);
        }
        assert(s@.index_of_first(sep) is None) by {
            if s@.index_of_first(sep) is Some {
                let k = s@.index_of_first(sep)->0;
                assert(s@[k] == sep);
            }
        }
    }
    None
}

} // verus!
