//! Decides whether an authorized intent may be submitted.
//!
//! Admission is read-only and deterministic. Everything it rests on is frozen
//! into one [`model::AdmissionInput`]; a fixed sequence of checks reads that
//! input and nothing else, and their outcomes fold into one decision: deny
//! where any check denies, else defer where any defers, else allow.
use vstd::prelude::*;

pub mod builder;
pub mod checks;
pub mod engine;
pub mod model;
pub mod preparation;

verus! {

} // verus!
