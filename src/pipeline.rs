//! The render pipeline the effect asks the engine to compile: one
//! full-screen pass whose fragment shader writes a single colour target.
use vstd::prelude::*;
use crate::layout::{dof_layout, dof_layout_entries, LayoutEntry};

verus! {

/// Name under which the layout and the pipeline appear in GPU debuggers.
pub const DOF_LABEL: &'static str = "dof_bind_group_layout";

/// Entry point of the effect's fragment shader.
pub const FRAGMENT_ENTRY: &'static str = "fragment";

/// One colour attachment, in the engine's default colour format.
#[derive(Clone, Copy, Debug, PartialEq, Eq, Structural)]
pub struct ColorTarget {
    /// Whether the output is alpha-blended over what the target holds.
    pub blend: bool,
    /// Whether all four channels are written.
    pub write_all: bool,
}

/// What the effect hands to the engine's pipeline cache.
pub struct PipelineDescription {
    pub label: &'static str,
    /// The single bind-group layout of the pipeline.
    pub layout: Vec<LayoutEntry>,
    pub fragment_entry: &'static str,
    pub targets: Vec<ColorTarget>,
    /// Whether the pass tests or writes depth.
    pub depth_stencil: bool,
    /// Number of push-constant ranges.
    pub push_constant_ranges: usize,
}

/// The colour target of the effect: the blurred image overwrites the
/// target outright.
pub open spec fn dof_target() -> ColorTarget {
    ColorTarget { blend: false, write_all: true }
}

/// Whether `p` is the effect's pipeline for a settings uniform of
/// `min_size` bytes.
pub open spec fn is_dof_pipeline(p: PipelineDescription, min_size: u64) -> bool {
    &&& p.label@ == DOF_LABEL@
    &&& p.layout@ == dof_layout(min_size)
    &&& p.fragment_entry@ == FRAGMENT_ENTRY@
    &&& p.targets@ == seq![dof_target()]
    &&& !p.depth_stencil
    &&& p.push_constant_ranges == 0
}

/// Describes the effect's pipeline.
pub fn dof_pipeline(uniform_min_size: u64) -> (r: PipelineDescription)
    ensures
        is_dof_pipeline(r, uniform_min_size),
{
    let targets = vec![ColorTarget { blend: false, write_all: true }];
    assert(targets@ =~= seq![dof_target()]);
    PipelineDescription {
        label: DOF_LABEL,
        layout: dof_layout_entries(uniform_min_size),
        fragment_entry: FRAGMENT_ENTRY,
        targets,
        depth_stencil: false,
        push_constant_ranges: 0,
    }
}

} // verus!
