//! Where the effect runs in the 3D frame graph: after the main pass has
//! produced colour and depth, and before temporal anti-aliasing.
use vstd::prelude::*;

verus! {

/// The frame-graph nodes the effect is ordered against.
#[derive(Clone, Copy, Debug, PartialEq, Eq, Structural)]
pub enum GraphNode {
    EndMainPass,
    DepthOfField,
    Taa,
}

/// The chain of nodes that the effect links, each running before the next.
pub open spec fn dof_chain() -> Seq<GraphNode> {
    seq![GraphNode::EndMainPass, GraphNode::DepthOfField, GraphNode::Taa]
}

/// Whether `a` comes before `b` in `chain`.
pub open spec fn runs_before(chain: Seq<GraphNode>, a: GraphNode, b: GraphNode) -> bool {
    exists|i: int, j: int|
        0 <= i < j < chain.len() && #[trigger] chain[i] == a && #[trigger] chain[j] == b
}

/// The chain of nodes to link, in order.
pub fn dof_graph_chain() -> (r: Vec<GraphNode>)
    ensures
        r@ == dof_chain(),
{
    let r = vec![GraphNode::EndMainPass, GraphNode::DepthOfField, GraphNode::Taa];
    assert(r@ =~= dof_chain());
    r
}

/// The effect reads the finished main pass and feeds anti-aliasing.
pub proof fn lemma_dof_between_main_pass_and_taa()
    ensures
        runs_before(dof_chain(), GraphNode::EndMainPass, GraphNode::DepthOfField),
        runs_before(dof_chain(), GraphNode::DepthOfField, GraphNode::Taa),
{
    let c = dof_chain();
    assert(c[0] == GraphNode::EndMainPass && c[1] == GraphNode::DepthOfField);
    assert(c[2] == GraphNode::Taa);
}

} // verus!
