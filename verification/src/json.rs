//! The structured value that parameters, results and error payloads are made of.
//!
//! The library never looks inside a JSON value: it carries values from one
//! side to the other, copies them and, in a few places, produces `null`.
//! Everything here that touches `serde_json` is trusted rather than proved.

use serde_json::Value;
use vstd::prelude::*;

verus! {

/// `serde_json::Value`, opaque to the verifier.
#[verifier::external_type_specification]
#[verifier::external_body]
pub struct ExValue(serde_json::Value);

/// `serde_json::Error`, opaque to the verifier. It is only handed on.
#[verifier::external_type_specification]
#[verifier::external_body]
pub struct ExJsonError(serde_json::Error);

/// Whether a value is JSON `null`, that is the variant `serde_json::Value::Null`.
pub uninterp spec fn is_null(value: Value) -> bool;

/// Trusted: the derived `Clone` of `serde_json::Value` copies the whole tree, so
/// the copy equals the value it was made from.
pub assume_specification[ <serde_json::Value as Clone>::clone ](value: &Value) -> (copy: Value)
    ensures
        copy == *value,
;

/// The JSON `null`.
///
/// Trusted: builds the variant `serde_json::Value::Null`, which is the one value
/// that `is_null` holds of.
#[verifier::external_body]
pub(crate) fn null() -> (value: Value)
    ensures
        is_null(value),
{
    Value::Null
}

/// Encodes a JSON value as a JSON value.
///
/// Trusted: calls `serde_json::to_value`. The serializer behind it rebuilds
/// each variant of a `serde_json::Value` as it found it (numbers keep their
/// representation, object keys are strings already), so the call cannot fail
/// and gives back an equal value.
#[verifier::external_body]
pub(crate) fn to_value(value: &Value) -> (encoded: Result<Value, serde_json::Error>)
    ensures
        encoded is Ok,
        encoded->Ok_0 == *value,
{
    serde_json::to_value(value)
}

} // verus!
