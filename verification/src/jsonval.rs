//! Declaration of the dynamically-typed JSON value used for the open bags of
//! unrecognized fields that the configuration preserves verbatim.

use vstd::prelude::*;

verus! {

/// Relies on serde_json::Value: the library never looks inside such a value;
/// it only carries unrecognized configuration fields through load and save
/// unchanged, so the type is declared opaque.
#[verifier::external_type_specification]
#[verifier::external_body]
pub struct ExJsonValue(serde_json::Value);

} // verus!
