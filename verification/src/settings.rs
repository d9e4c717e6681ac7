//! Raw setting objects.
//!
//! A [`SettingObject`] is a named bundle of raw values used to materialise one
//! element of a collection field (for instance a device descriptor).  Its
//! conversion into a typed element looks required keys up by name and is
//! all-or-nothing: a missing required key fails the whole conversion, extra
//! keys are ignored.

use vstd::prelude::*;
use vstd::string::*;

use crate::attributes::AttributeValue;
use crate::text::str_eq;

verus! {

/// The raw value stored under `key` in `pairs`; the first match wins.
pub open spec fn spec_lookup(
    pairs: Seq<(Seq<char>, Seq<char>)>,
    key: Seq<char>,
) -> Option<Seq<char>>
    decreases pairs.len(),
{
    if pairs.len() == 0 {
        None
    } else if pairs[0].0 == key {
        Some(pairs[0].1)
    } else {
        spec_lookup(pairs.drop_first(), key)
    }
}

/// A named bundle of raw values, in the order the caller supplied them.
pub struct SettingObject(pub Vec<(String, AttributeValue)>);

impl View for SettingObject {
    type V = Seq<(Seq<char>, Seq<char>)>;

    open spec fn view(&self) -> Seq<(Seq<char>, Seq<char>)> {
        self.0.deep_view()
    }
}

impl SettingObject {
    /// Wraps plain key/value pairs, keeping their order.
    pub fn from_pairs(pairs: &Vec<(String, String)>) -> (r: SettingObject)
        ensures
            r@ == pairs.deep_view(),
    {
        let mut entries: Vec<(String, AttributeValue)> = Vec::new();
        let mut i: usize = 0;
        while i < pairs.len()
            invariant
                i <= pairs@.len(),
                entries@.len() == i,
                forall|j: int| 0 <= j < i ==> entries@[j] == (pairs@[j].0, AttributeValue(pairs@[j].1)),
            decreases pairs@.len() - i,
        {
            let key = pairs[i].0.clone();
            let value = AttributeValue(pairs[i].1.clone());
            entries.push((key, value));
            i += 1;
        }
        proof {
            assert forall|j: int| 0 <= j < pairs@.len() implies entries.deep_view()[j]
                == pairs.deep_view()[j] by {
                assert(entries.deep_view()[j] == entries@[j].deep_view());
                assert(pairs.deep_view()[j] == pairs@[j].deep_view());
            }
            assert(entries.deep_view() =~= pairs.deep_view());
        }
        SettingObject(entries)
    }

    /// Looks the raw value stored under `key` up; the first match wins.
    pub fn get(&self, key: &str) -> (r: Option<&AttributeValue>)
        ensures
            match r {
                Some(value) => spec_lookup(self@, key@) == Some(value@),
                None => spec_lookup(self@, key@) is None,
            },
    {
        let mut i: usize = 0;
        proof {
            assert(self@.skip(0) =~= self@);
        }
        while i < self.0.len()
            invariant
                i <= self.0@.len(),
                spec_lookup(self@, key@) == spec_lookup(self@.skip(i as int), key@),
            decreases self.0@.len() - i,
        {
            proof {
                assert(self@.skip(i as int)[0] == self@[i as int]);
            }
            if str_eq(self.0[i].0.as_str(), key) {
                return Some(&self.0[i].1);
            }
            proof {
                assert(self@.skip(i as int).drop_first() =~= self@.skip(i as int + 1));
            }
            i += 1;
        }
        proof {
            assert(self@.skip(self.0@.len() as int).len() == 0);
        }
        None
    }
}

} // verus!
