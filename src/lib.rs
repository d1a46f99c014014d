//! Declarative side of a depth-of-field post-processing effect: the shape
//! of the resources the effect's shader binds, the pipeline it asks the
//! engine to compile, and where its node sits in the frame graph.
use vstd::prelude::*;

pub mod graph;
pub mod layout;
pub mod pipeline;

verus! {

} // verus!
