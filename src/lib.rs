//! Structural analysis behind the `Model` derive: from a record declaration
//! to the data that each emitted method of the `Model` implementation needs.
use vstd::prelude::*;

pub mod field;
pub mod fields;
pub mod naming;
pub mod emit;
pub mod model;
pub mod laws;

verus! {

} // verus!
