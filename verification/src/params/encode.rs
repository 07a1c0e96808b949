//! The trusted boundary to the dynamic-value encoder.
//!
//! Every parameter value is stored as an [`ijson::IValue`], ijson's compact
//! dynamic JSON value. This module declares that type and the two conversions
//! the container relies on: the infallible string conversion and the fallible
//! generic encoder.

use vstd::prelude::*;

verus! {

/// ijson's dynamic JSON value: the universal value type every parameter is
/// converted into before storage. It is opaque here; only ijson itself builds
/// and reads it.
#[verifier::external_type_specification]
#[verifier::external_body]
pub struct ExIValue(ijson::IValue);

/// serde_json's error type, with which ijson's encoder reports a value that
/// cannot be represented.
#[verifier::external_type_specification]
#[verifier::external_body]
pub struct ExJsonError(serde_json::Error);

/// The string-typed dynamic value holding exactly the characters `s`. Which
/// value that is depends on the characters alone, so it is given a name here
/// rather than a definition.
pub uninterp spec fn string_value(s: Seq<char>) -> ijson::IValue;

/// Relies on ijson's `From<String> for IValue`: the result is the string-typed
/// dynamic value holding exactly the characters of `s`.
#[verifier::external_body]
pub(crate) fn ivalue_from_string(s: String) -> (r: ijson::IValue)
    ensures
        r == string_value(s@),
{
    ijson::IValue::from(s)
}

/// Relies on ijson's `to_value`: encodes any serializable value as a dynamic
/// value through the value's own `serde::Serialize` implementation, and
/// reports that implementation's error when the value cannot be represented.
/// Nothing more is promised of the outcome.
pub assume_specification<T>[ ijson::to_value ](value: T) -> Result<
    ijson::IValue,
    serde_json::Error,
> where T: serde::Serialize
;

} // verus!
