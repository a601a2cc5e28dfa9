//! Render-graph wiring of the sky pass.
//!
//! At setup the sky node is registered and two edges are declared: an
//! execution-order edge from the sky pass to the main pass (the sky draws
//! first, the scene composites over it), and a slot edge handing the
//! primary swap chain's output texture to the sky node's color-attachment
//! slot. Any execution order that respects the declared edges therefore
//! runs the sky pass before the main pass.

use vstd::prelude::*;

verus! {

/// The graph nodes the sky pass is wired to.
#[derive(Clone, Copy, Debug, PartialEq, Eq, Structural)]
pub enum GraphNodeId {
    SkyPass,
    MainPass,
    PrimarySwapChain,
}

/// An execution-order edge: `from` must run before `to`.
#[derive(Clone, Copy, Debug, PartialEq, Eq, Structural)]
pub struct NodeEdge {
    pub from: GraphNodeId,
    pub to: GraphNodeId,
}

/// A resource edge: output slot `from_slot` of `from` fills input slot
/// `to_slot` of `to`.
#[derive(Clone, Copy, Debug, PartialEq, Eq, Structural)]
pub struct SlotEdge {
    pub from: GraphNodeId,
    pub from_slot: u32,
    pub to: GraphNodeId,
    pub to_slot: u32,
}

/// The execution-order edges the sky setup declares.
pub open spec fn spec_sky_node_edges() -> Seq<NodeEdge> {
    seq![NodeEdge { from: GraphNodeId::SkyPass, to: GraphNodeId::MainPass }]
}

/// The resource edges the sky setup declares.
pub open spec fn spec_sky_slot_edges() -> Seq<SlotEdge> {
    seq![
        SlotEdge {
            from: GraphNodeId::PrimarySwapChain,
            from_slot: 0u32,
            to: GraphNodeId::SkyPass,
            to_slot: 0u32,
        },
    ]
}

/// Edge `e` is respected by `order`: `e.from` runs at some position
/// strictly before some position of `e.to`.
pub open spec fn edge_respected(order: Seq<GraphNodeId>, e: NodeEdge) -> bool {
    exists|i: int, j: int|
        0 <= i < j < order.len() && order[i] == e.from && order[j] == e.to
}

/// Every edge in the list is respected by `order`.
pub open spec fn order_respects(order: Seq<GraphNodeId>, edges: Seq<NodeEdge>) -> bool {
    forall|k: int| 0 <= k < edges.len() ==> edge_respected(order, #[trigger] edges[k])
}

/// Any execution order that respects the sky graph's declared edges runs
/// the sky pass strictly before the main pass.
pub proof fn lemma_sky_before_main(order: Seq<GraphNodeId>)
    requires
        order_respects(order, spec_sky_node_edges()),
    ensures
        exists|i: int, j: int|
            0 <= i < j < order.len() && order[i] == GraphNodeId::SkyPass && order[j]
                == GraphNodeId::MainPass,
{
    assert(edge_respected(order, spec_sky_node_edges()[0]));
}

/// The execution-order edges, for the host to declare.
pub fn sky_node_edges() -> (r: Vec<NodeEdge>)
    ensures
        r@ == spec_sky_node_edges(),
{
    let edges: Vec<NodeEdge> = vec![
        NodeEdge { from: GraphNodeId::SkyPass, to: GraphNodeId::MainPass },
    ];
    assert(edges@ =~= spec_sky_node_edges());
    edges
}

/// The resource edges, for the host to declare.
pub fn sky_slot_edges() -> (r: Vec<SlotEdge>)
    ensures
        r@ == spec_sky_slot_edges(),
{
    let edges: Vec<SlotEdge> = vec![
        SlotEdge {
            from: GraphNodeId::PrimarySwapChain,
            from_slot: 0u32,
            to: GraphNodeId::SkyPass,
            to_slot: 0u32,
        },
    ];
    assert(edges@ =~= spec_sky_slot_edges());
    edges
}

/// Whether `order` respects the single edge `e`.
fn edge_respected_exec(order: &Vec<GraphNodeId>, e: &NodeEdge) -> (r: bool)
    ensures
        r == edge_respected(order@, *e),
{
    let n: usize = order.len();
    let mut seen_from = false;
    let mut found = false;
    let mut j: usize = 0;
    while j < n
        invariant
            j <= n,
            n == order@.len(),
            seen_from == exists|p: int| 0 <= p < j && order@[p] == e.from,
            found == exists|p: int, q: int|
                0 <= p < q < j && order@[p] == e.from && order@[q] == e.to,
        decreases n - j,
    {
        if seen_from && order[j] == e.to {
            proof {
                let p = choose|p: int| 0 <= p < j && order@[p] == e.from;
                assert(0 <= p < j + 1 - 1 && order@[p] == e.from && order@[j as int] == e.to);
            }
            found = true;
        }
        if order[j] == e.from {
            seen_from = true;
        }
        j = j + 1;
    }
    found
}

/// Whether `order` respects every edge in `edges`; with the declared sky
/// edges, a `true` result means the sky pass runs before the main pass.
pub fn order_respects_edges(order: &Vec<GraphNodeId>, edges: &Vec<NodeEdge>) -> (r: bool)
    ensures
        r == order_respects(order@, edges@),
{
    let mut k: usize = 0;
    while k < edges.len()
        invariant
            k <= edges@.len(),
            forall|m: int| 0 <= m < k ==> edge_respected(order@, #[trigger] edges@[m]),
        decreases edges@.len() - k,
    {
        let e = &edges[k];
        if !edge_respected_exec(order, e) {
            return false;
        }
        k = k + 1;
    }
    true
}

} // verus!
