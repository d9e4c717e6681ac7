//! Raw attribute values and their typed conversion.
//!
//! A caller addresses one field with a dotted id (`"storage.lvm"`) and a raw
//! string value.  [`AttributeValue`] wraps such a string and converts it —
//! fallibly — into exactly the type the addressed field requires: booleans
//! accept `true`/`yes`/`t` and `false`/`no`/`f` without regard to ASCII case,
//! string targets take the raw value unchanged.

use vstd::prelude::*;
use vstd::string::*;

use crate::error::{ConversionError, SettingsError};

verus! {

/// A raw string value pending conversion into the type of a settings field.
pub struct AttributeValue(pub String);

impl View for AttributeValue {
    type V = Seq<char>;

    open spec fn view(&self) -> Seq<char> {
        self.0@
    }
}

impl DeepView for AttributeValue {
    type V = Seq<char>;

    open spec fn deep_view(&self) -> Seq<char> {
        self.0@
    }
}

/// `a` matches the lower-case ASCII letter `pat`, ignoring ASCII case.
pub open spec fn char_eq_ci(a: char, pat: char) -> bool {
    a == pat || ('A' <= a && a <= 'Z' && a as int + 32 == pat as int)
}

/// `s` matches the lower-case ASCII word `pat`, ignoring ASCII case.
pub open spec fn seq_eq_ci(s: Seq<char>, pat: Seq<char>) -> bool {
    s.len() == pat.len() && (forall|i: int| 0 <= i < s.len() ==> char_eq_ci(s[i], pat[i]))
}

/// The boolean a raw value denotes, if any.
pub open spec fn spec_to_bool(s: Seq<char>) -> Option<bool> {
    if seq_eq_ci(s, "true"@) || seq_eq_ci(s, "yes"@) || seq_eq_ci(s, "t"@) {
        Some(true)
    } else if seq_eq_ci(s, "false"@) || seq_eq_ci(s, "no"@) || seq_eq_ci(s, "f"@) {
        Some(false)
    } else {
        None
    }
}

fn char_matches_ci(a: char, pat: char) -> (r: bool)
    ensures
        r == char_eq_ci(a, pat),
{
    a == pat || ('A' <= a && a <= 'Z' && (a as u32) + 32 == (pat as u32))
}

fn str_eq_ci(s: &str, pat: &str) -> (r: bool)
    ensures
        r == seq_eq_ci(s@, pat@),
{
    let s_len = s.unicode_len();
    let pat_len = pat.unicode_len();
    if s_len != pat_len {
        return false;
    }
    let mut i: usize = 0;
    while i < s_len
        invariant
            s_len == s@.len(),
            pat_len == pat@.len(),
            s_len == pat_len,
            i <= s_len,
            forall|j: int| 0 <= j < i ==> char_eq_ci(s@[j], pat@[j]),
        decreases s_len - i,
    {
        if !char_matches_ci(s.get_char(i), pat.get_char(i)) {
            return false;
        }
        i += 1;
    }
    true
}

impl AttributeValue {
    /// Converts the raw string into a boolean; any raw value that denotes no
    /// boolean is an invalid format.
    pub fn to_bool(&self) -> (r: Result<bool, ConversionError>)
        ensures
            match spec_to_bool(self@) {
                Some(b) => r == Ok::<bool, ConversionError>(b),
                None => r == Err::<bool, ConversionError>(ConversionError::InvalidFormat),
            },
    {
        let s = self.0.as_str();
        if str_eq_ci(s, "true") || str_eq_ci(s, "yes") || str_eq_ci(s, "t") {
            Ok(true)
        } else if str_eq_ci(s, "false") || str_eq_ci(s, "no") || str_eq_ci(s, "f") {
            Ok(false)
        } else {
            Err(ConversionError::InvalidFormat)
        }
    }

    /// Converts the raw string into a string: the identity, always succeeds.
    pub fn into_string(self) -> (r: String)
        ensures
            r@ == self@,
    {
        self.0
    }
}

impl TryFrom<AttributeValue> for bool {
    type Error = ConversionError;

    fn try_from(value: AttributeValue) -> Result<bool, ConversionError> {
        value.to_bool()
    }
}

impl vstd::std_specs::convert::TryFromSpecImpl<AttributeValue> for bool {
    open spec fn obeys_try_from_spec() -> bool {
        true
    }

    open spec fn try_from_spec(v: AttributeValue) -> Result<bool, ConversionError> {
        match spec_to_bool(v@) {
            Some(b) => Ok(b),
            None => Err(ConversionError::InvalidFormat),
        }
    }
}

impl TryFrom<AttributeValue> for String {
    type Error = ConversionError;

    fn try_from(value: AttributeValue) -> Result<String, ConversionError> {
        Ok(value.0)
    }
}

impl vstd::std_specs::convert::TryFromSpecImpl<AttributeValue> for String {
    open spec fn obeys_try_from_spec() -> bool {
        true
    }

    open spec fn try_from_spec(v: AttributeValue) -> Result<String, ConversionError> {
        Ok(v.0)
    }
}

/// Write access to settings through dotted attribute ids and raw values.
pub trait Attributes {
    /// Sets the scalar field addressed by `attr` from the raw `value`.
    fn set_attribute(&mut self, attr: &str, value: AttributeValue) -> Result<(), SettingsError>;
}

} // verus!
