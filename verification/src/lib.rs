//! Typed error stacks: the derive's field classification and code
//! generation, and the report that walks an error chain and renders it.

pub mod derive;
pub mod fields;
pub mod laws;
pub mod model;
pub mod naming;
pub mod output_laws;
pub mod plan;
pub mod render;
pub mod report;
pub mod text;

use vstd::prelude::*;

verus! {

} // verus!
