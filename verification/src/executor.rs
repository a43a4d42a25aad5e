//! Executing a render graph against a resource manager.
//!
//! One execution runs every texture node's update step, in node order, and
//! then propagates slot values along the slot edges: the value of each
//! edge's output slot is copied into its input slot, in edge order.  Texture
//! nodes allocate at most once, so executing the same graph again allocates
//! nothing further and leaves the whole state as the first execution left
//! it.

use vstd::prelude::*;

use crate::graph::{GraphView, NodeData, NodeDataView, NodeView, RenderGraph, SlotEdge};
use crate::resource::{RenderResourceId, RenderResources, ResourcesView};
use crate::texture_node::{spec_update_step, TextureNode};

verus! {

/// The same node with new output slot values.
pub open spec fn spec_with_outputs(n: NodeView, outputs: Seq<Option<RenderResourceId>>) -> NodeView {
    NodeView {
        name: n.name,
        data: n.data,
        input_slots: n.input_slots,
        output_slots: n.output_slots,
        inputs: n.inputs,
        outputs,
    }
}

/// The same node with new input slot values.
pub open spec fn spec_with_inputs(n: NodeView, inputs: Seq<Option<RenderResourceId>>) -> NodeView {
    NodeView {
        name: n.name,
        data: n.data,
        input_slots: n.input_slots,
        output_slots: n.output_slots,
        inputs,
        outputs: n.outputs,
    }
}

/// The state after the first `i` nodes have taken their update step:
/// each texture node among them has performed its at-most-once allocation;
/// other nodes do nothing.
pub open spec fn spec_run_texture_nodes(
    nodes: Seq<NodeView>,
    res: ResourcesView,
    i: int,
) -> (Seq<NodeView>, ResourcesView)
    decreases i,
{
    if i <= 0 {
        (nodes, res)
    } else {
        let (nodes1, res1) = spec_run_texture_nodes(nodes, res, i - 1);
        let k = i - 1;
        if k < nodes1.len() {
            match nodes1[k].data {
                NodeDataView::Texture(tn) => {
                    let (res2, outs2) = spec_update_step(tn, res1, nodes1[k].outputs);
                    (nodes1.update(k, spec_with_outputs(nodes1[k], outs2)), res2)
                },
                _ => (nodes1, res1),
            }
        } else {
            (nodes1, res1)
        }
    }
}

/// One slot edge applied: the output slot's value is copied into the input
/// slot.  An edge that points outside the graph changes nothing.
pub open spec fn spec_apply_slot_edge(nodes: Seq<NodeView>, e: SlotEdge) -> Seq<NodeView> {
    if e.output_node < nodes.len() && e.input_node < nodes.len() && (e.output_index as int)
        < nodes[e.output_node as int].outputs.len() && (e.input_index as int)
        < nodes[e.input_node as int].inputs.len() {
        let v = nodes[e.output_node as int].outputs[e.output_index as int];
        let tgt = nodes[e.input_node as int];
        nodes.update(
            e.input_node as int,
            spec_with_inputs(tgt, tgt.inputs.update(e.input_index as int, v)),
        )
    } else {
        nodes
    }
}

/// The state after the first `k` slot edges have been applied, in order.
pub open spec fn spec_propagate(nodes: Seq<NodeView>, edges: Seq<SlotEdge>, k: int) -> Seq<
    NodeView,
>
    decreases k,
{
    if k <= 0 {
        nodes
    } else {
        spec_apply_slot_edge(spec_propagate(nodes, edges, k - 1), edges[k - 1])
    }
}

/// What one execution of the graph does: every texture node takes its update
/// step, then every slot edge carries its output value to its input slot.
pub open spec fn spec_execute(g: GraphView, res: ResourcesView) -> (GraphView, ResourcesView) {
    let (nodes1, res1) = spec_run_texture_nodes(g.nodes, res, g.nodes.len() as int);
    let nodes2 = spec_propagate(nodes1, g.slot_edges, g.slot_edges.len() as int);
    (GraphView { nodes: nodes2, node_edges: g.node_edges, slot_edges: g.slot_edges }, res1)
}

impl RenderGraph {
    /// Executes the graph once: texture nodes allocate lazily, then slot
    /// edges carry the resource ids to their consumers.
    pub fn execute(&mut self, render_context: &mut RenderResources)
        requires
            old(self)@.wf(),
        ensures
            (final(self)@, final(render_context)@) == spec_execute(
                old(self)@,
                old(render_context)@,
            ),
            final(self)@.wf(),
    {
        let ghost g0 = self@;
        let ghost r0 = render_context@;
        let n = self.nodes.len();
        let mut i: usize = 0;
        while i < n
            invariant
                i <= n,
                n == self@.nodes.len(),
                n == g0.nodes.len(),
                g0.wf(),
                self@.wf(),
                self@.node_edges == g0.node_edges,
                self@.slot_edges == g0.slot_edges,
                (self@.nodes, render_context@) == spec_run_texture_nodes(g0.nodes, r0, i as int),
            decreases n - i,
        {
            let ghost pre = self@;
            proof {
                assert(self@.nodes[i as int] == self.nodes@[i as int]@);
            }
            let node = &mut self.nodes[i];
            if let NodeData::Texture(tn) = &node.data {
                let t: TextureNode = *tn;
                proof {
                    assert(crate::graph::node_wf(pre.nodes[i as int]));
                    assert(crate::graph::spec_output_slots(pre.nodes[i as int].data)
                        == crate::texture_node::spec_texture_output_slots());
                    assert(node.outputs@.len() == 1);
                }
                t.update(render_context, &mut node.outputs);
            }
            proof {
                let (enodes, eres) = spec_run_texture_nodes(g0.nodes, r0, i + 1);
                assert(self@.nodes =~= enodes);
                assert(render_context@ == eres);
                lemma_wf_same_shape(pre, self@.nodes);
            }
            i = i + 1;
        }
        let ghost n1 = self@.nodes;
        let ghost r1 = render_context@;
        let m = self.slot_edges.len();
        let mut k: usize = 0;
        while k < m
            invariant
                k <= m,
                m == self@.slot_edges.len(),
                self@.wf(),
                self@.node_edges == g0.node_edges,
                self@.slot_edges == g0.slot_edges,
                render_context@ == r1,
                self@.nodes == spec_propagate(n1, g0.slot_edges, k as int),
            decreases m - k,
        {
            let ghost pre = self@;
            let e = self.slot_edges[k];
            proof {
                assert(self@.slot_edge_wf(self@.slot_edges[k as int]));
                assert(self@.nodes[e.output_node as int] == self.nodes@[e.output_node as int]@);
                assert(self@.nodes[e.input_node as int] == self.nodes@[e.input_node as int]@);
                assert(crate::graph::node_wf(self@.nodes[e.output_node as int]));
                assert(crate::graph::node_wf(self@.nodes[e.input_node as int]));
            }
            let v = self.nodes[e.output_node].outputs.get_value(e.output_index);
            let node = &mut self.nodes[e.input_node];
            node.inputs.write_value(e.input_index, v);
            proof {
                assert(self@.nodes =~= spec_apply_slot_edge(pre.nodes, e));
                lemma_wf_same_shape(pre, self@.nodes);
            }
            k = k + 1;
        }
        proof {
            let (eg, er) = spec_execute(g0, r0);
            assert(self@.nodes == eg.nodes);
            assert(self@ == eg);
            assert(render_context@ == er);
        }
    }
}

/// A graph stays well formed when its nodes keep their names, data, slot
/// descriptions and slot counts, whatever happens to the slot values.
pub proof fn lemma_wf_same_shape(g: GraphView, nodes2: Seq<NodeView>)
    requires
        g.wf(),
        nodes2.len() == g.nodes.len(),
        forall|i: int|
            0 <= i < nodes2.len() ==> (#[trigger] nodes2[i]).name == g.nodes[i].name
                && nodes2[i].data == g.nodes[i].data && nodes2[i].input_slots
                == g.nodes[i].input_slots && nodes2[i].output_slots == g.nodes[i].output_slots
                && nodes2[i].inputs.len() == g.nodes[i].inputs.len() && nodes2[i].outputs.len()
                == g.nodes[i].outputs.len(),
    ensures
        (GraphView { nodes: nodes2, node_edges: g.node_edges, slot_edges: g.slot_edges }).wf(),
{
    let g2 = GraphView { nodes: nodes2, node_edges: g.node_edges, slot_edges: g.slot_edges };
    assert forall|i: int, j: int| 0 <= i < j < g2.nodes.len() implies (#[trigger] g2.nodes[i]).name
        != (#[trigger] g2.nodes[j]).name by {
        assert(g.nodes[i].name != g.nodes[j].name);
    }
    assert forall|i: int| 0 <= i < g2.nodes.len() implies crate::graph::node_wf(
        #[trigger] g2.nodes[i],
    ) by {
        assert(crate::graph::node_wf(g.nodes[i]));
    }
    assert forall|k: int| 0 <= k < g2.node_edges.len() implies g2.node_edge_wf(
        #[trigger] g2.node_edges[k],
    ) by {
        assert(g.node_edge_wf(g.node_edges[k]));
    }
    assert forall|k: int| 0 <= k < g2.slot_edges.len() implies g2.slot_edge_wf(
        #[trigger] g2.slot_edges[k],
    ) by {
        assert(g.slot_edge_wf(g.slot_edges[k]));
    }
}

/// Running the update steps changes only the output values of texture nodes,
/// and leaves every node at index `i` or later untouched.
pub proof fn lemma_run_texture_shape(nodes: Seq<NodeView>, res: ResourcesView, i: int)
    requires
        0 <= i <= nodes.len(),
    ensures
        ({
            let (nodes1, res1) = spec_run_texture_nodes(nodes, res, i);
            &&& nodes1.len() == nodes.len()
            &&& forall|j: int|
                0 <= j < nodes.len() ==> (#[trigger] nodes1[j]).name == nodes[j].name
                    && nodes1[j].data == nodes[j].data && nodes1[j].input_slots
                    == nodes[j].input_slots && nodes1[j].output_slots == nodes[j].output_slots
                    && nodes1[j].inputs == nodes[j].inputs && nodes1[j].outputs.len()
                    == nodes[j].outputs.len()
            &&& forall|j: int| i <= j < nodes.len() ==> (#[trigger] nodes1[j]) == nodes[j]
        }),
    decreases i,
{
    if i > 0 {
        lemma_run_texture_shape(nodes, res, i - 1);
    }
}

/// After the update steps, every texture node among the first `i` has a
/// filled first output slot.
pub proof fn lemma_run_texture_fills(nodes: Seq<NodeView>, res: ResourcesView, i: int)
    requires
        0 <= i <= nodes.len(),
        forall|j: int|
            0 <= j < nodes.len() && (#[trigger] nodes[j]).data is Texture ==> nodes[j].outputs.len()
                >= 1,
    ensures
        ({
            let (nodes1, res1) = spec_run_texture_nodes(nodes, res, i);
            forall|j: int|
                0 <= j < i && (#[trigger] nodes1[j]).data is Texture ==> !(nodes1[j].outputs[0]
                    is None)
        }),
    decreases i,
{
    if i > 0 {
        lemma_run_texture_fills(nodes, res, i - 1);
        lemma_run_texture_shape(nodes, res, i - 1);
    }
}

/// Update steps on a graph whose texture nodes are all already allocated
/// change nothing.
pub proof fn lemma_run_texture_noop(nodes: Seq<NodeView>, res: ResourcesView, i: int)
    requires
        0 <= i <= nodes.len(),
        forall|j: int|
            0 <= j < nodes.len() && (#[trigger] nodes[j]).data is Texture ==> nodes[j].outputs.len()
                >= 1 && !(nodes[j].outputs[0] is None),
    ensures
        spec_run_texture_nodes(nodes, res, i) == (nodes, res),
    decreases i,
{
    if i > 0 {
        lemma_run_texture_noop(nodes, res, i - 1);
    }
}

/// Propagation changes only input slot values: names, data, slot
/// descriptions, outputs and input counts stay as they were.
pub proof fn lemma_propagate_shape(nodes: Seq<NodeView>, edges: Seq<SlotEdge>, k: int)
    requires
        k >= 0,
    ensures
        ({
            let nodes2 = spec_propagate(nodes, edges, k);
            &&& nodes2.len() == nodes.len()
            &&& forall|j: int|
                0 <= j < nodes.len() ==> (#[trigger] nodes2[j]).name == nodes[j].name
                    && nodes2[j].data == nodes[j].data && nodes2[j].input_slots
                    == nodes[j].input_slots && nodes2[j].output_slots == nodes[j].output_slots
                    && nodes2[j].inputs.len() == nodes[j].inputs.len() && nodes2[j].outputs
                    == nodes[j].outputs
        }),
    decreases k,
{
    if k > 0 {
        lemma_propagate_shape(nodes, edges, k - 1);
    }
}

/// Whether applying edge `e` to nodes of this shape writes input slot
/// `slot` of node `node`.
pub open spec fn spec_edge_writes(nodes: Seq<NodeView>, e: SlotEdge, node: int, slot: int) -> bool {
    &&& e.output_node < nodes.len()
    &&& e.input_node < nodes.len()
    &&& (e.output_index as int) < nodes[e.output_node as int].outputs.len()
    &&& (e.input_index as int) < nodes[e.input_node as int].inputs.len()
    &&& e.input_node as int == node
    &&& e.input_index as int == slot
}

/// The last edge among the first `k` that writes input slot `slot` of node
/// `node`, if any.
pub open spec fn spec_last_writer(
    nodes: Seq<NodeView>,
    edges: Seq<SlotEdge>,
    k: int,
    node: int,
    slot: int,
) -> Option<int>
    decreases k,
{
    if k <= 0 {
        None
    } else if spec_edge_writes(nodes, edges[k - 1], node, slot) {
        Some(k - 1)
    } else {
        spec_last_writer(nodes, edges, k - 1, node, slot)
    }
}

/// What propagation leaves in each input slot: the output value carried by
/// the last edge that writes the slot, or the slot's old value when no edge
/// does.  The edge guards and the carried values are read off the starting
/// nodes, which propagation keeps except for input values.
pub proof fn lemma_propagate_characterization(
    nodes: Seq<NodeView>,
    edges: Seq<SlotEdge>,
    k: int,
    node: int,
    slot: int,
)
    requires
        k >= 0,
        0 <= node < nodes.len(),
        0 <= slot < nodes[node].inputs.len(),
    ensures
        ({
            let nodes2 = spec_propagate(nodes, edges, k);
            nodes2[node].inputs[slot] == (match spec_last_writer(nodes, edges, k, node, slot) {
                Some(t) => nodes[edges[t].output_node as int].outputs[edges[t].output_index as int],
                None => nodes[node].inputs[slot],
            })
        }),
    decreases k,
{
    if k > 0 {
        lemma_propagate_characterization(nodes, edges, k - 1, node, slot);
        lemma_propagate_shape(nodes, edges, k - 1);
        let prev = spec_propagate(nodes, edges, k - 1);
        let e = edges[k - 1];
        if spec_edge_writes(nodes, e, node, slot) {
            assert(prev[e.output_node as int].outputs == nodes[e.output_node as int].outputs);
        }
    }
}

/// Executing a well-formed graph is idempotent: a second execution leaves
/// the graph, the allocation record and the registry exactly as the first
/// left them.
pub proof fn lemma_execute_idempotent(g: GraphView, res: ResourcesView)
    requires
        g.wf(),
    ensures
        ({
            let (g1, res1) = spec_execute(g, res);
            spec_execute(g1, res1) == (g1, res1)
        }),
{
    let (g1, res1) = spec_execute(g, res);
    let (nodes1, res1b) = spec_run_texture_nodes(g.nodes, res, g.nodes.len() as int);
    let nodes2 = spec_propagate(nodes1, g.slot_edges, g.slot_edges.len() as int);
    lemma_execute_again_allocates_nothing(g, res);
    lemma_run_texture_shape(g.nodes, res, g.nodes.len() as int);
    lemma_run_texture_fills(g.nodes, res, g.nodes.len() as int);
    lemma_propagate_shape(nodes1, g.slot_edges, g.slot_edges.len() as int);
    assert forall|j: int|
        0 <= j < g.nodes.len() && (#[trigger] g.nodes[j]).data is Texture implies g.nodes[j].outputs.len()
        >= 1 by {
        assert(crate::graph::node_wf(g.nodes[j]));
        assert(g.nodes[j].output_slots == crate::texture_node::spec_texture_output_slots());
    }
    assert forall|j: int|
        0 <= j < nodes2.len() && (#[trigger] nodes2[j]).data is Texture implies nodes2[j].outputs.len()
        >= 1 && !(nodes2[j].outputs[0] is None) by {
        assert(nodes1[j].data is Texture);
        assert(!(nodes1[j].outputs[0] is None));
        assert(nodes2[j].outputs == nodes1[j].outputs);
    }
    // the second run of the update steps changes nothing
    lemma_run_texture_noop(nodes2, res1, nodes2.len() as int);
    let m = g.slot_edges.len() as int;
    let nodes3 = spec_propagate(nodes2, g.slot_edges, m);
    lemma_propagate_shape(nodes2, g.slot_edges, m);
    // the second propagation writes every slot with the value it already
    // holds: the guards and the carried output values agree between the
    // first and the second pass
    assert forall|j: int| 0 <= j < nodes2.len() implies #[trigger] nodes3[j] == nodes2[j] by {
        assert(nodes3[j].inputs.len() == nodes2[j].inputs.len());
        assert forall|s: int| 0 <= s < nodes2[j].inputs.len() implies #[trigger] nodes3[j].inputs[s]
            == nodes2[j].inputs[s] by {
            lemma_propagate_characterization(nodes1, g.slot_edges, m, j, s);
            lemma_propagate_characterization(nodes2, g.slot_edges, m, j, s);
            lemma_last_writer_same(nodes1, nodes2, g.slot_edges, m, j, s);
            lemma_last_writer_writes(nodes2, g.slot_edges, m, j, s);
            match spec_last_writer(nodes2, g.slot_edges, m, j, s) {
                Some(t) => {
                    assert(spec_edge_writes(nodes2, g.slot_edges[t], j, s));
                    assert(nodes2[g.slot_edges[t].output_node as int].outputs
                        == nodes1[g.slot_edges[t].output_node as int].outputs);
                },
                None => {},
            }
        }
        assert(nodes3[j].inputs =~= nodes2[j].inputs);
    }
    assert(nodes3 =~= nodes2);
    assert(spec_execute(g1, res1).0 == g1);
    assert(spec_execute(g1, res1).1 == res1);
}

/// The last writer of a slot, when there is one, is an edge that writes
/// it.
proof fn lemma_last_writer_writes(
    nodes: Seq<NodeView>,
    edges: Seq<SlotEdge>,
    k: int,
    node: int,
    slot: int,
)
    requires
        k >= 0,
    ensures
        ({
            match spec_last_writer(nodes, edges, k, node, slot) {
                Some(t) => 0 <= t < k && spec_edge_writes(nodes, edges[t], node, slot),
                None => true,
            }
        }),
    decreases k,
{
    if k > 0 {
        lemma_last_writer_writes(nodes, edges, k - 1, node, slot);
    }
}

/// Two node lists of the same shape agree on which edge last writes a
/// slot.
proof fn lemma_last_writer_same(
    nodes_a: Seq<NodeView>,
    nodes_b: Seq<NodeView>,
    edges: Seq<SlotEdge>,
    k: int,
    node: int,
    slot: int,
)
    requires
        k >= 0,
        nodes_a.len() == nodes_b.len(),
        forall|j: int|
            0 <= j < nodes_a.len() ==> (#[trigger] nodes_b[j]).inputs.len()
                == nodes_a[j].inputs.len() && nodes_b[j].outputs.len() == nodes_a[j].outputs.len(),
    ensures
        spec_last_writer(nodes_b, edges, k, node, slot) == spec_last_writer(
            nodes_a,
            edges,
            k,
            node,
            slot,
        ),
    decreases k,
{
    if k > 0 {
        lemma_last_writer_same(nodes_a, nodes_b, edges, k - 1, node, slot);
    }
}

/// Executing a well-formed graph a second time allocates nothing: the
/// texture nodes were all filled by the first execution, so their update
/// steps change neither the allocation record nor the registry.
pub proof fn lemma_execute_again_allocates_nothing(g: GraphView, res: ResourcesView)
    requires
        g.wf(),
    ensures
        ({
            let (g1, res1) = spec_execute(g, res);
            spec_execute(g1, res1).1 == res1
        }),
{
    let (nodes1, res1) = spec_run_texture_nodes(g.nodes, res, g.nodes.len() as int);
    let nodes2 = spec_propagate(nodes1, g.slot_edges, g.slot_edges.len() as int);
    assert forall|j: int|
        0 <= j < g.nodes.len() && (#[trigger] g.nodes[j]).data is Texture implies g.nodes[j].outputs.len()
        >= 1 by {
        assert(crate::graph::node_wf(g.nodes[j]));
        assert(g.nodes[j].output_slots == crate::texture_node::spec_texture_output_slots());
    }
    lemma_run_texture_shape(g.nodes, res, g.nodes.len() as int);
    lemma_run_texture_fills(g.nodes, res, g.nodes.len() as int);
    lemma_propagate_shape(nodes1, g.slot_edges, g.slot_edges.len() as int);
    assert forall|j: int|
        0 <= j < nodes2.len() && (#[trigger] nodes2[j]).data is Texture implies nodes2[j].outputs.len()
        >= 1 && !(nodes2[j].outputs[0] is None) by {
        assert(nodes1[j].data is Texture);
        assert(!(nodes1[j].outputs[0] is None));
        assert(nodes2[j].outputs == nodes1[j].outputs);
    }
    lemma_run_texture_noop(nodes2, res1, nodes2.len() as int);
}

} // verus!
