//! The value decoder: classifying a raw property-list value.
//!
//! A preference lookup hands back a runtime-typed property-list value (or
//! nothing at all). [`RawPrefValue`] models exactly what the probe reads off
//! such a value: whether it was there, which runtime type tag it carried, and
//! the extracted payload. [`decode`] turns that into the closed set of
//! supported results: absent, string, integer, or boolean.

use vstd::prelude::*;

verus! {

/// What a single raw preference lookup yields, as read from the platform
/// value: its runtime type tag and extracted payload.
///
/// `Text(None)` models a present text value whose C-string extraction fails;
/// the decoder drops such a value rather than reporting an error.
#[derive(Debug)]
pub enum RawPrefValue {
    /// The lookup found no value at all.
    Null,
    /// A text value; `None` when the text payload could not be extracted.
    Text(Option<String>),
    /// A numeric value, read as a signed integer.
    Number(i64),
    /// A boolean value carrying its own boolean type tag.
    Boolean(bool),
    /// Any other runtime type; unsupported and dropped.
    Other,
}

impl Clone for RawPrefValue {
    fn clone(&self) -> (r: Self)
        ensures
            r == *self,
    {
        match self {
            RawPrefValue::Null => RawPrefValue::Null,
            RawPrefValue::Text(Some(s)) => RawPrefValue::Text(Some(s.clone())),
            RawPrefValue::Text(None) => RawPrefValue::Text(None),
            RawPrefValue::Number(i) => RawPrefValue::Number(*i),
            RawPrefValue::Boolean(b) => RawPrefValue::Boolean(*b),
            RawPrefValue::Other => RawPrefValue::Other,
        }
    }
}

/// A decoded preference value: the closed set of scalar shapes the probe
/// supports. Absence is expressed as `None` at the use sites.
#[derive(Debug)]
pub enum PlistDataType {
    Bool(bool),
    Str(String),
    Int(i64),
}

impl Clone for PlistDataType {
    fn clone(&self) -> (r: Self)
        ensures
            r == *self,
    {
        match self {
            PlistDataType::Bool(b) => PlistDataType::Bool(*b),
            PlistDataType::Str(s) => PlistDataType::Str(s.clone()),
            PlistDataType::Int(i) => PlistDataType::Int(*i),
        }
    }
}

impl PlistDataType {
    /// The integer payload; callers must already know the value is an
    /// integer, as anything else aborts the probe.
    pub fn unwrap_int(&self) -> (r: i64)
        requires
            *self is Int,
        ensures
            *self == PlistDataType::Int(r),
    {
        match self {
            PlistDataType::Int(x) => *x,
            _ => vstd::pervasive::unreached(),
        }
    }
}

/// What [`decode`] returns for each raw value: nothing for an absent,
/// undecodable or unsupported value, and the tagged payload otherwise.
pub open spec fn spec_decode(raw: RawPrefValue) -> Option<PlistDataType> {
    match raw {
        RawPrefValue::Null => None,
        RawPrefValue::Text(Some(s)) => Some(PlistDataType::Str(s)),
        RawPrefValue::Text(None) => None,
        RawPrefValue::Number(i) => Some(PlistDataType::Int(i)),
        RawPrefValue::Boolean(b) => Some(PlistDataType::Bool(b)),
        RawPrefValue::Other => None,
    }
}

/// Classify a raw property-list value and convert it to a native
/// representation.
///
/// The raw value is consumed: ownership of the platform data ends here, on
/// every path, so a caller can never read it twice or leak it.
pub fn decode(raw: RawPrefValue) -> (r: Option<PlistDataType>)
    ensures
        r == spec_decode(raw),
{
    match raw {
        RawPrefValue::Null => None,
        RawPrefValue::Text(Some(s)) => Some(PlistDataType::Str(s)),
        RawPrefValue::Text(None) => None,
        RawPrefValue::Number(i) => Some(PlistDataType::Int(i)),
        RawPrefValue::Boolean(b) => Some(PlistDataType::Bool(b)),
        RawPrefValue::Other => None,
    }
}

/// An absent raw value always decodes to absence, never to a payload.
pub proof fn lemma_decode_null()
    ensures
        spec_decode(RawPrefValue::Null) is None,
{
}

/// Decoding round-trips text: a text value whose payload was extracted as
/// `s` decodes to exactly the string `s`.
pub proof fn lemma_decode_text_round_trip(s: String)
    ensures
        spec_decode(RawPrefValue::Text(Some(s))) == Some(PlistDataType::Str(s)),
{
}

/// Decoding preserves integers exactly: a numeric value read as `i` decodes
/// to exactly the integer `i`.
pub proof fn lemma_decode_int_exact(i: i64)
    ensures
        spec_decode(RawPrefValue::Number(i)) == Some(PlistDataType::Int(i)),
{
}

} // verus!
