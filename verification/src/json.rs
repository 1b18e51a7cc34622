//! JSON values. The library carries them through without looking inside.

use vstd::prelude::*;
use serde_json::Value;

verus! {

/// A JSON value of any shape.
#[verifier::external_type_specification]
#[verifier::external_body]
pub struct ExValue(Value);

} // verus!
