//! A showcase of layout policies, built as a verified scene tree: one sample
//! cell for every pairing of an alignment with a justification, laid out in a
//! grid under two headings.

use vstd::prelude::*;

pub mod guarantees;
pub mod layout;
pub mod options;
pub mod scene;

verus! {

} // verus!
