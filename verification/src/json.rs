//! JSON values and errors of `serde_json`, carried through opaque.

use vstd::prelude::*;
use serde_json::Error as JsonError;

verus! {

/// A JSON value (`serde_json::Value`), held opaque.
#[verifier::external_type_specification]
#[verifier::external_body]
pub struct ExJsonValue(serde_json::Value);

/// A JSON error (`serde_json::Error`), held opaque.
#[verifier::external_type_specification]
#[verifier::external_body]
pub struct ExJsonError(JsonError);

} // verus!
