//! Hardware information from the target system.
//!
//! The backend reports disk sizes as text such as `"1024 MB"`; the verified
//! part here is the decimal parsing of that text into a number.

use vstd::prelude::*;
use vstd::string::*;

use crate::text::{spec_split_once, split_once_char};

verus! {

/// Represents the hardware information from the target system
#[derive(Debug)]
pub struct HWInfo {
    pub disks: Vec<DiskInfo>,
    pub os_release: OSReleaseInfo,
}

/// One disk of the target system.
#[derive(Debug)]
pub struct DiskInfo {
    pub name: String,
    pub size: u32,
}

/// The operating-system release of the target system.
#[derive(Debug)]
pub struct OSReleaseInfo {
    pub id: String,
    pub name: String,
}

/// A decimal digit.
pub open spec fn is_dec_digit(c: char) -> bool {
    '0' <= c && c <= '9'
}

/// The value of a decimal digit.
pub open spec fn dec_digit(c: char) -> int {
    c as int - '0' as int
}

/// Whether every character of `s` is a decimal digit.
pub open spec fn all_dec_digits(s: Seq<char>) -> bool {
    forall|i: int| 0 <= i < s.len() ==> is_dec_digit(s[i])
}

/// The number a sequence of decimal digits denotes, most significant first.
pub open spec fn dec_val(s: Seq<char>) -> int
    decreases s.len(),
{
    if s.len() == 0 {
        0
    } else {
        dec_val(s.drop_last()) * 10 + dec_digit(s.last())
    }
}

/// A longer digit prefix never denotes a smaller number.
proof fn lemma_dec_val_prefix(s: Seq<char>, i: int)
    requires
        0 <= i <= s.len(),
        all_dec_digits(s),
    ensures
        dec_val(s.take(i)) <= dec_val(s),
        dec_val(s) >= 0,
    decreases s.len() - i,
{
    if i == s.len() {
        assert(s.take(i) =~= s);
        lemma_dec_val_nonneg(s);
    } else {
        assert(s.take(i + 1).drop_last() =~= s.take(i));
        assert(s.take(i + 1).last() == s[i]);
        lemma_dec_val_nonneg(s.take(i));
        assert(dec_val(s.take(i)) <= dec_val(s.take(i + 1)));
        lemma_dec_val_prefix(s, i + 1);
    }
}

/// A digit sequence never denotes a negative number.
proof fn lemma_dec_val_nonneg(s: Seq<char>)
    requires
        all_dec_digits(s),
    ensures
        dec_val(s) >= 0,
    decreases s.len(),
{
    if s.len() > 0 {
        assert(all_dec_digits(s.drop_last()));
        lemma_dec_val_nonneg(s.drop_last());
    }
}

/// Parses a decimal number: `None` when `s` is empty, holds a non-digit, or
/// denotes a value that does not fit in `u32`.
pub fn parse_u32(s: &str) -> (r: Option<u32>)
    ensures
        match r {
            Some(v) => s@.len() > 0 && all_dec_digits(s@) && dec_val(s@) == v,
            None => s@.len() == 0 || !all_dec_digits(s@) || dec_val(s@) > u32::MAX,
        },
{
    let len = s.unicode_len();
    if len == 0 {
        return None;
    }
    let mut acc: u64 = 0;
    let mut i: usize = 0;
    proof {
        assert(s@.take(0) =~= Seq::<char>::empty());
    }
    while i < len
        invariant
            len == s@.len(),
            i <= len,
            forall|j: int| 0 <= j < i ==> is_dec_digit(s@[j]),
            acc == dec_val(s@.take(i as int)),
            acc <= u32::MAX,
        decreases len - i,
    {
        let c = s.get_char(i);
        if !('0' <= c && c <= '9') {
            return None;
        }
        let digit = (c as u32) - ('0' as u32);
        proof {
            assert(s@.take(i as int + 1).drop_last() =~= s@.take(i as int));
            assert(s@.take(i as int + 1).last() == s@[i as int]);
        }
        let next: u64 = acc * 10 + (digit as u64);
        if next > 0xFFFF_FFFF {
            proof {
                assert(all_dec_digits(s@.take(i as int + 1)));
                assert(dec_val(s@.take(i as int + 1)) == next);
                assert(forall|j: int| 0 <= j < s@.len() && !is_dec_digit(s@[j])
                    ==> !all_dec_digits(s@));
                if all_dec_digits(s@) {
                    lemma_dec_val_prefix(s@, i as int + 1);
                }
            }
            return None;
        }
        acc = next;
        i += 1;
    }
    proof {
        assert(s@.take(len as int) =~= s@);
    }
    Some(acc as u32)
}

impl DiskInfo {
    /// Builds a disk record from the backend's fields.  The size arrives as
    /// text such as `"1024 MB"`: the decimal number before the first space is
    /// taken, and text without a space counts as zero.  `None` when the
    /// number before the space is missing, malformed or too large.
    pub fn from_fields(name: String, size_text: &str) -> (r: Option<DiskInfo>)
        ensures
            match spec_split_once(size_text@, ' ') {
                None => r matches Some(d) && d.name == name && d.size == 0,
                Some(parts) => {
                    if parts.0.len() > 0 && all_dec_digits(parts.0) && dec_val(parts.0)
                        <= u32::MAX {
                        r matches Some(d) && d.name == name && d.size == dec_val(parts.0)
                    } else {
                        r is None
                    }
                },
            },
    {
        match split_once_char(size_text, ' ') {
            None => Some(DiskInfo { name, size: 0 }),
            Some((number, _)) => match parse_u32(number) {
                Some(size) => Some(DiskInfo { name, size }),
                None => None,
            },
        }
    }
}

} // verus!
