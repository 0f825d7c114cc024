//! Decision core of S-entropy alignment: which strategy carries a source coordinate
//! onto its target, which results are accepted, when an iteration stops, how a
//! pathway's steps are fused, and the failures the framework reports.

use vstd::prelude::*;

pub mod constants;
pub mod error;
pub mod iteration;
pub mod pathway;
pub mod policy;
pub mod strategy;

verus! {

} // verus!
