//! The render graph: named nodes, node edges and typed slot edges.
//!
//! Node identity is by name: adding a node under a name that is already
//! taken fails with a duplicate-name error.  A slot edge binds an output
//! slot of one node to an input slot of another, both looked up by name;
//! the binding is validated when the edge is added, and an edge between
//! slots of different resource types is rejected.  A well-formed graph
//! therefore never holds a mismatched slot edge.

use vstd::prelude::*;

use crate::pass::{spec_pass_input_slots, PassNodeData, PassNodeView};
use crate::resource::RenderResourceId;
use crate::slot::{slot_infos_view, ResourceSlotInfo, ResourceSlots, SlotInfoView};
use crate::texture_node::{spec_texture_output_slots, TextureNode};

verus! {

/// Why a graph operation was rejected.
#[derive(Debug)]
pub enum GraphError {
    /// A node with this name is already in the graph.
    NodeAlreadyExists(String),
    /// No node with this name is in the graph.
    NodeDoesNotExist(String),
    /// The output node has no output slot with this name.
    OutputSlotDoesNotExist(String),
    /// The input node has no input slot with this name.
    InputSlotDoesNotExist(String),
    /// The two slots carry different resource types.
    MismatchedSlotType(String),
    /// The exact same edge has already been added.
    EdgeAlreadyExists,
}

/// The mathematical form of a graph error.
pub ghost enum GraphErrorView {
    NodeAlreadyExists(Seq<char>),
    NodeDoesNotExist(Seq<char>),
    OutputSlotDoesNotExist(Seq<char>),
    InputSlotDoesNotExist(Seq<char>),
    MismatchedSlotType(Seq<char>),
    EdgeAlreadyExists,
}

impl View for GraphError {
    type V = GraphErrorView;

    open spec fn view(&self) -> GraphErrorView {
        match self {
            GraphError::NodeAlreadyExists(n) => GraphErrorView::NodeAlreadyExists(n@),
            GraphError::NodeDoesNotExist(n) => GraphErrorView::NodeDoesNotExist(n@),
            GraphError::OutputSlotDoesNotExist(s) => GraphErrorView::OutputSlotDoesNotExist(s@),
            GraphError::InputSlotDoesNotExist(s) => GraphErrorView::InputSlotDoesNotExist(s@),
            GraphError::MismatchedSlotType(s) => GraphErrorView::MismatchedSlotType(s@),
            GraphError::EdgeAlreadyExists => GraphErrorView::EdgeAlreadyExists,
        }
    }
}

/// The view of a graph operation's result.
pub open spec fn result_view(r: Result<(), GraphError>) -> Result<(), GraphErrorView> {
    match r {
        Ok(()) => Ok(()),
        Err(e) => Err(e@),
    }
}

/// What a node is: the camera driver, a lazy texture allocator, a render
/// pass, or another engine-provided node (a window's swap chain, its depth
/// texture, a buffer stage) that declares its own input and output slots.
#[derive(Debug)]
pub enum NodeData {
    Camera(String),
    Texture(TextureNode),
    Pass(PassNodeData),
    Engine { inputs: Vec<ResourceSlotInfo>, outputs: Vec<ResourceSlotInfo> },
}

/// The mathematical form of a node's data.
pub ghost enum NodeDataView {
    Camera(Seq<char>),
    Texture(TextureNode),
    Pass(PassNodeView),
    Engine { inputs: Seq<SlotInfoView>, outputs: Seq<SlotInfoView> },
}

impl View for NodeData {
    type V = NodeDataView;

    open spec fn view(&self) -> NodeDataView {
        match self {
            NodeData::Camera(n) => NodeDataView::Camera(n@),
            NodeData::Texture(t) => NodeDataView::Texture(*t),
            NodeData::Pass(p) => NodeDataView::Pass(p@),
            NodeData::Engine { inputs, outputs } => NodeDataView::Engine {
                inputs: slot_infos_view(inputs@),
                outputs: slot_infos_view(outputs@),
            },
        }
    }
}

/// The input slots a node exposes: a pass derives them from its
/// attachments, an engine node declares them; no other node kind has
/// inputs.
pub open spec fn spec_input_slots(d: NodeDataView) -> Seq<SlotInfoView> {
    match d {
        NodeDataView::Pass(p) => spec_pass_input_slots(p.descriptor),
        NodeDataView::Engine { inputs, .. } => inputs,
        _ => Seq::empty(),
    }
}

/// The output slots a node exposes: a texture node its single texture slot,
/// an engine node what it declares; no other node kind has outputs.
pub open spec fn spec_output_slots(d: NodeDataView) -> Seq<SlotInfoView> {
    match d {
        NodeDataView::Texture(_) => spec_texture_output_slots(),
        NodeDataView::Engine { outputs, .. } => outputs,
        _ => Seq::empty(),
    }
}

/// A node in a graph: its name, its data, its slot descriptions and the
/// current values of its slots.
#[derive(Debug)]
pub struct GraphNode {
    pub name: String,
    pub data: NodeData,
    pub input_slots: Vec<ResourceSlotInfo>,
    pub output_slots: Vec<ResourceSlotInfo>,
    pub inputs: ResourceSlots,
    pub outputs: ResourceSlots,
}

/// The mathematical form of a graph node.
pub ghost struct NodeView {
    pub name: Seq<char>,
    pub data: NodeDataView,
    pub input_slots: Seq<SlotInfoView>,
    pub output_slots: Seq<SlotInfoView>,
    pub inputs: Seq<Option<RenderResourceId>>,
    pub outputs: Seq<Option<RenderResourceId>>,
}

impl View for GraphNode {
    type V = NodeView;

    open spec fn view(&self) -> NodeView {
        NodeView {
            name: self.name@,
            data: self.data@,
            input_slots: slot_infos_view(self.input_slots@),
            output_slots: slot_infos_view(self.output_slots@),
            inputs: self.inputs@,
            outputs: self.outputs@,
        }
    }
}

/// A node is well formed when its slot descriptions are the ones its data
/// gives rise to and it has one value entry per slot.
pub open spec fn node_wf(n: NodeView) -> bool {
    &&& n.input_slots == spec_input_slots(n.data)
    &&& n.output_slots == spec_output_slots(n.data)
    &&& n.inputs.len() == n.input_slots.len()
    &&& n.outputs.len() == n.output_slots.len()
}

/// An ordering edge: the output node must run before the input node.
#[derive(Clone, Copy, Debug, PartialEq, Eq, Structural)]
pub struct NodeEdge {
    pub output_node: usize,
    pub input_node: usize,
}

/// A slot edge: the value of one node's output slot flows into another
/// node's input slot.  Nodes and slots are held by index.
#[derive(Clone, Copy, Debug, PartialEq, Eq, Structural)]
pub struct SlotEdge {
    pub output_node: usize,
    pub output_index: usize,
    pub input_node: usize,
    pub input_index: usize,
}

/// A directed graph of named render nodes.
#[derive(Debug)]
pub struct RenderGraph {
    pub nodes: Vec<GraphNode>,
    pub node_edges: Vec<NodeEdge>,
    pub slot_edges: Vec<SlotEdge>,
}

/// The mathematical form of a render graph.
pub ghost struct GraphView {
    pub nodes: Seq<NodeView>,
    pub node_edges: Seq<NodeEdge>,
    pub slot_edges: Seq<SlotEdge>,
}

impl View for RenderGraph {
    type V = GraphView;

    open spec fn view(&self) -> GraphView {
        GraphView {
            nodes: self.nodes@.map_values(|n: GraphNode| n@),
            node_edges: self.node_edges@,
            slot_edges: self.slot_edges@,
        }
    }
}

/// The index of the first node with this name, if any.
pub open spec fn spec_find_node(nodes: Seq<NodeView>, name: Seq<char>) -> Option<int>
    decreases nodes.len(),
{
    if nodes.len() == 0 {
        None
    } else if nodes[0].name == name {
        Some(0)
    } else {
        match spec_find_node(nodes.drop_first(), name) {
            Some(i) => Some(i + 1),
            None => None,
        }
    }
}

/// The index of the first slot with this name, if any.
pub open spec fn spec_find_slot(slots: Seq<SlotInfoView>, name: Seq<char>) -> Option<int>
    decreases slots.len(),
{
    if slots.len() == 0 {
        None
    } else if slots[0].name == name {
        Some(0)
    } else {
        match spec_find_slot(slots.drop_first(), name) {
            Some(i) => Some(i + 1),
            None => None,
        }
    }
}

/// What `spec_find_node` returns: the first match, or nothing when no node
/// has the name.
pub proof fn lemma_find_node_characterization(nodes: Seq<NodeView>, name: Seq<char>)
    ensures
        match spec_find_node(nodes, name) {
            Some(i) => 0 <= i < nodes.len() && nodes[i].name == name && (forall|j: int|
                0 <= j < i ==> (#[trigger] nodes[j]).name != name),
            None => forall|j: int| 0 <= j < nodes.len() ==> (#[trigger] nodes[j]).name != name,
        },
    decreases nodes.len(),
{
    if nodes.len() > 0 && nodes[0].name != name {
        lemma_find_node_characterization(nodes.drop_first(), name);
        assert(forall|j: int|
            0 < j < nodes.len() ==> (#[trigger] nodes[j]) == nodes.drop_first()[j - 1]);
    }
}

/// What `spec_find_slot` returns: the first match, or nothing when no slot
/// has the name.
pub proof fn lemma_find_slot_characterization(slots: Seq<SlotInfoView>, name: Seq<char>)
    ensures
        match spec_find_slot(slots, name) {
            Some(i) => 0 <= i < slots.len() && slots[i].name == name && (forall|j: int|
                0 <= j < i ==> (#[trigger] slots[j]).name != name),
            None => forall|j: int| 0 <= j < slots.len() ==> (#[trigger] slots[j]).name != name,
        },
    decreases slots.len(),
{
    if slots.len() > 0 && slots[0].name != name {
        lemma_find_slot_characterization(slots.drop_first(), name);
        assert(forall|j: int|
            0 < j < slots.len() ==> (#[trigger] slots[j]) == slots.drop_first()[j - 1]);
    }
}

/// A name that first occurs at index `i` is found there.
pub proof fn lemma_find_node_at(nodes: Seq<NodeView>, name: Seq<char>, i: int)
    requires
        0 <= i < nodes.len(),
        nodes[i].name == name,
        forall|j: int| 0 <= j < i ==> (#[trigger] nodes[j]).name != name,
    ensures
        spec_find_node(nodes, name) == Some(i),
{
    lemma_find_node_characterization(nodes, name);
    match spec_find_node(nodes, name) {
        Some(k) => {
            if k < i {
                assert(nodes[k].name != name);
            }
            if i < k {
                assert(nodes[i].name != name);
            }
        },
        None => {
            assert(nodes[i].name != name);
        },
    }
}

/// A slot name that first occurs at index `i` is found there.
pub proof fn lemma_find_slot_at(slots: Seq<SlotInfoView>, name: Seq<char>, i: int)
    requires
        0 <= i < slots.len(),
        slots[i].name == name,
        forall|j: int| 0 <= j < i ==> (#[trigger] slots[j]).name != name,
    ensures
        spec_find_slot(slots, name) == Some(i),
{
    lemma_find_slot_characterization(slots, name);
    match spec_find_slot(slots, name) {
        Some(k) => {
            if k < i {
                assert(slots[k].name != name);
            }
            if i < k {
                assert(slots[i].name != name);
            }
        },
        None => {
            assert(slots[i].name != name);
        },
    }
}

/// Finding a name in a graph grown by one node: an existing match is found
/// unchanged; otherwise the new node is found exactly when it has the name.
pub proof fn lemma_find_node_push(nodes: Seq<NodeView>, n: NodeView, name: Seq<char>)
    ensures
        spec_find_node(nodes.push(n), name) == (match spec_find_node(nodes, name) {
            Some(i) => Some(i),
            None => if n.name == name {
                Some(nodes.len() as int)
            } else {
                None
            },
        }),
    decreases nodes.len(),
{
    if nodes.len() == 0 {
        assert(nodes.push(n)[0] == n);
        if n.name != name {
            assert(nodes.push(n).drop_first() =~= Seq::<NodeView>::empty());
            assert(spec_find_node(Seq::<NodeView>::empty(), name) is None);
        }
    } else {
        assert(nodes.push(n)[0] == nodes[0]);
        if nodes[0].name != name {
            assert(nodes.push(n).drop_first() =~= nodes.drop_first().push(n));
            lemma_find_node_push(nodes.drop_first(), n, name);
        }
    }
}

impl GraphView {
    /// Whether a node with this name is in the graph.
    pub open spec fn has_node(self, name: Seq<char>) -> bool {
        spec_find_node(self.nodes, name) is Some
    }

    /// An ordering edge is well formed when both endpoints are nodes of the
    /// graph.
    pub open spec fn node_edge_wf(self, e: NodeEdge) -> bool {
        e.output_node < self.nodes.len() && e.input_node < self.nodes.len()
    }

    /// A slot edge is well formed when both endpoints are slots of nodes of
    /// the graph and the two slots carry the same resource type.
    pub open spec fn slot_edge_wf(self, e: SlotEdge) -> bool {
        &&& e.output_node < self.nodes.len()
        &&& e.input_node < self.nodes.len()
        &&& e.output_index < self.nodes[e.output_node as int].output_slots.len()
        &&& e.input_index < self.nodes[e.input_node as int].input_slots.len()
        &&& self.nodes[e.output_node as int].output_slots[e.output_index as int].resource_type
            == self.nodes[e.input_node as int].input_slots[e.input_index as int].resource_type
    }

    /// A graph is well formed when node names are distinct, every node is
    /// well formed, and every edge is well formed — in particular, no
    /// recorded slot edge mismatches resource types.
    pub open spec fn wf(self) -> bool {
        &&& forall|i: int, j: int|
            0 <= i < j < self.nodes.len() ==> (#[trigger] self.nodes[i]).name
                != (#[trigger] self.nodes[j]).name
        &&& forall|i: int| 0 <= i < self.nodes.len() ==> node_wf(#[trigger] self.nodes[i])
        &&& forall|k: int|
            0 <= k < self.node_edges.len() ==> self.node_edge_wf(#[trigger] self.node_edges[k])
        &&& forall|k: int|
            0 <= k < self.slot_edges.len() ==> self.slot_edge_wf(#[trigger] self.slot_edges[k])
    }
}

/// The node a graph gains when `data` is added under `name`: its slots
/// derived from the data, all values empty.
pub open spec fn spec_new_node(name: Seq<char>, data: NodeDataView) -> NodeView {
    NodeView {
        name,
        data,
        input_slots: spec_input_slots(data),
        output_slots: spec_output_slots(data),
        inputs: Seq::new(spec_input_slots(data).len(), |i: int| None),
        outputs: Seq::new(spec_output_slots(data).len(), |i: int| None),
    }
}

/// What adding a node does: fail on a duplicate name and leave the graph
/// unchanged, or append the new node.
pub open spec fn spec_add_node(g: GraphView, name: Seq<char>, data: NodeDataView) -> (
    GraphView,
    Result<(), GraphErrorView>,
) {
    if g.has_node(name) {
        (g, Err(GraphErrorView::NodeAlreadyExists(name)))
    } else {
        (
            GraphView {
                nodes: g.nodes.push(spec_new_node(name, data)),
                node_edges: g.node_edges,
                slot_edges: g.slot_edges,
            },
            Ok(()),
        )
    }
}

/// What adding an ordering edge does: fail if either endpoint is missing or
/// the edge is already there, else append it.
pub open spec fn spec_add_node_edge(g: GraphView, output: Seq<char>, input: Seq<char>) -> (
    GraphView,
    Result<(), GraphErrorView>,
) {
    match spec_find_node(g.nodes, output) {
        None => (g, Err(GraphErrorView::NodeDoesNotExist(output))),
        Some(oi) => match spec_find_node(g.nodes, input) {
            None => (g, Err(GraphErrorView::NodeDoesNotExist(input))),
            Some(ii) => {
                let e = NodeEdge { output_node: oi as usize, input_node: ii as usize };
                if g.node_edges.contains(e) {
                    (g, Err(GraphErrorView::EdgeAlreadyExists))
                } else {
                    (
                        GraphView {
                            nodes: g.nodes,
                            node_edges: g.node_edges.push(e),
                            slot_edges: g.slot_edges,
                        },
                        Ok(()),
                    )
                }
            },
        },
    }
}

/// What adding a slot edge does: look both slots up by name, reject a
/// missing node or slot, a resource-type mismatch, and a duplicate edge;
/// else append the resolved edge.
pub open spec fn spec_add_slot_edge(
    g: GraphView,
    output_node: Seq<char>,
    output_slot: Seq<char>,
    input_node: Seq<char>,
    input_slot: Seq<char>,
) -> (GraphView, Result<(), GraphErrorView>) {
    match spec_find_node(g.nodes, output_node) {
        None => (g, Err(GraphErrorView::NodeDoesNotExist(output_node))),
        Some(oi) => match spec_find_slot(g.nodes[oi].output_slots, output_slot) {
            None => (g, Err(GraphErrorView::OutputSlotDoesNotExist(output_slot))),
            Some(os) => match spec_find_node(g.nodes, input_node) {
                None => (g, Err(GraphErrorView::NodeDoesNotExist(input_node))),
                Some(ii) => match spec_find_slot(g.nodes[ii].input_slots, input_slot) {
                    None => (g, Err(GraphErrorView::InputSlotDoesNotExist(input_slot))),
                    Some(is) => {
                        if g.nodes[oi].output_slots[os].resource_type
                            != g.nodes[ii].input_slots[is].resource_type {
                            (g, Err(GraphErrorView::MismatchedSlotType(input_slot)))
                        } else {
                            let e = SlotEdge {
                                output_node: oi as usize,
                                output_index: os as usize,
                                input_node: ii as usize,
                                input_index: is as usize,
                            };
                            if g.slot_edges.contains(e) {
                                (g, Err(GraphErrorView::EdgeAlreadyExists))
                            } else {
                                (
                                    GraphView {
                                        nodes: g.nodes,
                                        node_edges: g.node_edges,
                                        slot_edges: g.slot_edges.push(e),
                                    },
                                    Ok(()),
                                )
                            }
                        }
                    },
                },
            },
        },
    }
}

impl RenderGraph {
    /// An empty graph.
    pub fn new() -> (r: RenderGraph)
        ensures
            r@.nodes == Seq::<NodeView>::empty(),
            r@.node_edges == Seq::<NodeEdge>::empty(),
            r@.slot_edges == Seq::<SlotEdge>::empty(),
            r@.wf(),
    {
        let r = RenderGraph { nodes: Vec::new(), node_edges: Vec::new(), slot_edges: Vec::new() };
        proof {
            assert(r@.nodes =~= Seq::<NodeView>::empty());
        }
        r
    }

    /// The index of the first node with this name, if any.
    pub fn find_node(&self, name: &str) -> (r: Option<usize>)
        ensures
            (r is Some) <==> (spec_find_node(self@.nodes, name@) is Some),
            r matches Some(i) ==> spec_find_node(self@.nodes, name@) == Some(i as int),
    {
        let key: String = name.to_owned();
        let n = self.nodes.len();
        let mut i: usize = 0;
        while i < n
            invariant
                i <= n,
                n == self@.nodes.len(),
                key@ == name@,
                forall|j: int| 0 <= j < i ==> (#[trigger] self@.nodes[j]).name != name@,
            decreases n - i,
        {
            if self.nodes[i].name == key {
                proof {
                    assert(self@.nodes[i as int].name == name@);
                    lemma_find_node_characterization(self@.nodes, name@);
                }
                return Some(i);
            }
            proof {
                assert(self@.nodes[i as int].name != name@);
            }
            i = i + 1;
        }
        proof {
            lemma_find_node_characterization(self@.nodes, name@);
        }
        None
    }

    /// Adds a node under a name.  Succeeds exactly when the name is not yet
    /// taken; on a duplicate name the graph is unchanged.
    pub fn add_node(&mut self, name: &str, data: NodeData) -> (r: Result<(), GraphError>)
        ensures
            (final(self)@, result_view(r)) == spec_add_node(old(self)@, name@, data@),
            (r is Ok) <==> !old(self)@.has_node(name@),
            old(self)@.wf() ==> final(self)@.wf(),
    {
        if self.find_node(name).is_some() {
            return Err(GraphError::NodeAlreadyExists(name.to_owned()));
        }
        let input_slots = node_input_slots(&data);
        let output_slots = node_output_slots(&data);
        let inputs = ResourceSlots::new_empty(input_slots.len());
        let outputs = ResourceSlots::new_empty(output_slots.len());
        let node = GraphNode { name: name.to_owned(), data, input_slots, output_slots, inputs, outputs };
        proof {
            assert(node@.inputs =~= spec_new_node(name@, node.data@).inputs);
            assert(node@.outputs =~= spec_new_node(name@, node.data@).outputs);
            assert(node@ == spec_new_node(name@, node.data@));
        }
        self.nodes.push(node);
        proof {
            assert(self@.nodes =~= old(self)@.nodes.push(spec_new_node(name@, data@)));
            if old(self)@.wf() {
                lemma_add_node_preserves_wf(old(self)@, name@, data@);
            }
        }
        Ok(())
    }

    /// Adds an ordering edge between two named nodes.  Succeeds exactly when
    /// both nodes exist and the edge is new; on failure the graph is
    /// unchanged.
    pub fn add_node_edge(&mut self, output_node: &str, input_node: &str) -> (r: Result<
        (),
        GraphError,
    >)
        ensures
            (final(self)@, result_view(r)) == spec_add_node_edge(
                old(self)@,
                output_node@,
                input_node@,
            ),
            old(self)@.wf() ==> final(self)@.wf(),
    {
        let oi = match self.find_node(output_node) {
            Some(i) => i,
            None => {
                return Err(GraphError::NodeDoesNotExist(output_node.to_owned()));
            },
        };
        let ii = match self.find_node(input_node) {
            Some(i) => i,
            None => {
                return Err(GraphError::NodeDoesNotExist(input_node.to_owned()));
            },
        };
        let e = NodeEdge { output_node: oi, input_node: ii };
        if self.has_node_edge(e) {
            return Err(GraphError::EdgeAlreadyExists);
        }
        self.node_edges.push(e);
        proof {
            lemma_find_node_characterization(old(self)@.nodes, output_node@);
            lemma_find_node_characterization(old(self)@.nodes, input_node@);
        }
        Ok(())
    }

    /// Whether this exact ordering edge is already recorded.
    fn has_node_edge(&self, e: NodeEdge) -> (r: bool)
        ensures
            r == self@.node_edges.contains(e),
    {
        let n = self.node_edges.len();
        let mut i: usize = 0;
        while i < n
            invariant
                i <= n,
                n == self@.node_edges.len(),
                forall|j: int| 0 <= j < i ==> #[trigger] self@.node_edges[j] != e,
            decreases n - i,
        {
            if self.node_edges[i] == e {
                return true;
            }
            i = i + 1;
        }
        false
    }

    /// Whether this exact slot edge is already recorded.
    fn has_slot_edge(&self, e: SlotEdge) -> (r: bool)
        ensures
            r == self@.slot_edges.contains(e),
    {
        let n = self.slot_edges.len();
        let mut i: usize = 0;
        while i < n
            invariant
                i <= n,
                n == self@.slot_edges.len(),
                forall|j: int| 0 <= j < i ==> #[trigger] self@.slot_edges[j] != e,
            decreases n - i,
        {
            if self.slot_edges[i] == e {
                return true;
            }
            i = i + 1;
        }
        false
    }

    /// The index of the first output slot with this name on node `node`.
    fn find_output_slot(&self, node: usize, name: &str) -> (r: Option<usize>)
        requires
            node < self@.nodes.len(),
        ensures
            (r is Some) <==> (spec_find_slot(self@.nodes[node as int].output_slots, name@) is Some),
            r matches Some(i) ==> spec_find_slot(self@.nodes[node as int].output_slots, name@)
                == Some(i as int),
    {
        let slots = &self.nodes[node].output_slots;
        let ghost sv = self@.nodes[node as int].output_slots;
        proof {
            assert(self@.nodes[node as int] == self.nodes@[node as int]@);
        }
        let n = slots.len();
        let mut i: usize = 0;
        while i < n
            invariant
                i <= n,
                node < self@.nodes.len(),
                sv == self@.nodes[node as int].output_slots,
                n == sv.len(),
                sv == slot_infos_view(slots@),
                forall|j: int| 0 <= j < i ==> (#[trigger] sv[j]).name != name@,
            decreases n - i,
        {
            if compare_str(&slots[i].name, name) {
                proof {
                    assert(sv[i as int] == slots@[i as int]@);
                    lemma_find_slot_characterization(sv, name@);
                }
                return Some(i);
            }
            proof {
                assert(sv[i as int] == slots@[i as int]@);
            }
            i = i + 1;
        }
        proof {
            lemma_find_slot_characterization(sv, name@);
        }
        None
    }

    /// The index of the first input slot with this name on node `node`.
    fn find_input_slot(&self, node: usize, name: &str) -> (r: Option<usize>)
        requires
            node < self@.nodes.len(),
        ensures
            (r is Some) <==> (spec_find_slot(self@.nodes[node as int].input_slots, name@) is Some),
            r matches Some(i) ==> spec_find_slot(self@.nodes[node as int].input_slots, name@)
                == Some(i as int),
    {
        let slots = &self.nodes[node].input_slots;
        let ghost sv = self@.nodes[node as int].input_slots;
        proof {
            assert(self@.nodes[node as int] == self.nodes@[node as int]@);
        }
        let n = slots.len();
        let mut i: usize = 0;
        while i < n
            invariant
                i <= n,
                node < self@.nodes.len(),
                sv == self@.nodes[node as int].input_slots,
                n == sv.len(),
                sv == slot_infos_view(slots@),
                forall|j: int| 0 <= j < i ==> (#[trigger] sv[j]).name != name@,
            decreases n - i,
        {
            if compare_str(&slots[i].name, name) {
                proof {
                    assert(sv[i as int] == slots@[i as int]@);
                    lemma_find_slot_characterization(sv, name@);
                }
                return Some(i);
            }
            proof {
                assert(sv[i as int] == slots@[i as int]@);
            }
            i = i + 1;
        }
        proof {
            lemma_find_slot_characterization(sv, name@);
        }
        None
    }

    /// Binds an output slot of one node to an input slot of another, both by
    /// name.  Succeeds exactly when both nodes and slots exist, the slots
    /// carry the same resource type, and the edge is new; on failure the
    /// graph is unchanged.  In particular, a texture output slot cannot be
    /// bound to an input slot of a different resource type.
    pub fn add_slot_edge(
        &mut self,
        output_node: &str,
        output_slot: &str,
        input_node: &str,
        input_slot: &str,
    ) -> (r: Result<(), GraphError>)
        ensures
            (final(self)@, result_view(r)) == spec_add_slot_edge(
                old(self)@,
                output_node@,
                output_slot@,
                input_node@,
                input_slot@,
            ),
            old(self)@.wf() ==> final(self)@.wf(),
    {
        let oi = match self.find_node(output_node) {
            Some(i) => i,
            None => {
                return Err(GraphError::NodeDoesNotExist(output_node.to_owned()));
            },
        };
        proof {
            lemma_find_node_characterization(self@.nodes, output_node@);
        }
        let os = match self.find_output_slot(oi, output_slot) {
            Some(i) => i,
            None => {
                return Err(GraphError::OutputSlotDoesNotExist(output_slot.to_owned()));
            },
        };
        let ii = match self.find_node(input_node) {
            Some(i) => i,
            None => {
                return Err(GraphError::NodeDoesNotExist(input_node.to_owned()));
            },
        };
        proof {
            lemma_find_node_characterization(self@.nodes, input_node@);
        }
        let is_ = match self.find_input_slot(ii, input_slot) {
            Some(i) => i,
            None => {
                return Err(GraphError::InputSlotDoesNotExist(input_slot.to_owned()));
            },
        };
        proof {
            lemma_find_slot_characterization(self@.nodes[oi as int].output_slots, output_slot@);
            lemma_find_slot_characterization(self@.nodes[ii as int].input_slots, input_slot@);
            assert(self@.nodes[oi as int] == self.nodes@[oi as int]@);
            assert(self@.nodes[ii as int] == self.nodes@[ii as int]@);
        }
        if !same_resource_type(
            self.nodes[oi].output_slots[os].resource_type,
            self.nodes[ii].input_slots[is_].resource_type,
        ) {
            return Err(GraphError::MismatchedSlotType(input_slot.to_owned()));
        }
        let e = SlotEdge { output_node: oi, output_index: os, input_node: ii, input_index: is_ };
        if self.has_slot_edge(e) {
            return Err(GraphError::EdgeAlreadyExists);
        }
        self.slot_edges.push(e);
        proof {
            lemma_find_node_characterization(old(self)@.nodes, output_node@);
            lemma_find_node_characterization(old(self)@.nodes, input_node@);
        }
        Ok(())
    }
}

/// A copy of a list of slot descriptions.
fn clone_slot_infos(slots: &Vec<ResourceSlotInfo>) -> (r: Vec<ResourceSlotInfo>)
    ensures
        slot_infos_view(r@) == slot_infos_view(slots@),
{
    let mut r: Vec<ResourceSlotInfo> = Vec::new();
    let n = slots.len();
    let mut i: usize = 0;
    while i < n
        invariant
            i <= n,
            n == slots@.len(),
            r@.len() == i,
            forall|j: int| 0 <= j < i ==> (#[trigger] r@[j])@ == slots@[j]@,
        decreases n - i,
    {
        r.push(
            ResourceSlotInfo { name: slots[i].name.clone(), resource_type: slots[i].resource_type },
        );
        i = i + 1;
    }
    proof {
        assert(slot_infos_view(r@) =~= slot_infos_view(slots@));
    }
    r
}

/// The input slot descriptions `data` gives rise to.
pub fn node_input_slots(data: &NodeData) -> (r: Vec<ResourceSlotInfo>)
    ensures
        slot_infos_view(r@) == spec_input_slots(data@),
{
    match data {
        NodeData::Pass(p) => p.input_slots(),
        NodeData::Engine { inputs, .. } => clone_slot_infos(inputs),
        _ => {
            let r: Vec<ResourceSlotInfo> = Vec::new();
            proof {
                assert(slot_infos_view(r@) =~= spec_input_slots(data@));
            }
            r
        },
    }
}

/// The output slot descriptions `data` gives rise to.
pub fn node_output_slots(data: &NodeData) -> (r: Vec<ResourceSlotInfo>)
    ensures
        slot_infos_view(r@) == spec_output_slots(data@),
{
    match data {
        NodeData::Texture(t) => t.output(),
        NodeData::Engine { outputs, .. } => clone_slot_infos(outputs),
        _ => {
            let r: Vec<ResourceSlotInfo> = Vec::new();
            proof {
                assert(slot_infos_view(r@) =~= spec_output_slots(data@));
            }
            r
        },
    }
}

/// Whether two resource types are the same.
fn same_resource_type(a: crate::resource::ResourceType, b: crate::resource::ResourceType) -> (r:
    bool)
    ensures
        r == (a == b),
{
    a == b
}

/// The slot-type contract: binding an output slot to an input slot of a
/// different resource type — a texture output to a non-texture input, or
/// the other way round — is rejected when the edge is added, and the graph
/// is left unchanged.
pub proof fn lemma_mismatched_slot_edge_rejected(
    g: GraphView,
    output_node: Seq<char>,
    output_slot: Seq<char>,
    input_node: Seq<char>,
    input_slot: Seq<char>,
)
    requires
        ({
            &&& spec_find_node(g.nodes, output_node) matches Some(oi)
            &&& spec_find_slot(g.nodes[oi].output_slots, output_slot) matches Some(os)
            &&& spec_find_node(g.nodes, input_node) matches Some(ii)
            &&& spec_find_slot(g.nodes[ii].input_slots, input_slot) matches Some(is)
            &&& g.nodes[oi].output_slots[os].resource_type
                != g.nodes[ii].input_slots[is].resource_type
        }),
    ensures
        spec_add_slot_edge(g, output_node, output_slot, input_node, input_slot) == (
            g,
            Err::<(), GraphErrorView>(GraphErrorView::MismatchedSlotType(input_slot)),
        ),
{
}

/// A well-formed graph stays well formed when a fresh node is added.
pub proof fn lemma_add_node_preserves_wf(g: GraphView, name: Seq<char>, data: NodeDataView)
    requires
        g.wf(),
        !g.has_node(name),
    ensures
        spec_add_node(g, name, data).0.wf(),
{
    let g1 = spec_add_node(g, name, data).0;
    lemma_find_node_characterization(g.nodes, name);
    assert forall|i: int, j: int| 0 <= i < j < g1.nodes.len() implies (#[trigger] g1.nodes[i]).name
        != (#[trigger] g1.nodes[j]).name by {
        if j < g.nodes.len() {
            assert(g1.nodes[i] == g.nodes[i] && g1.nodes[j] == g.nodes[j]);
        } else {
            assert(g1.nodes[i] == g.nodes[i]);
            assert(g1.nodes[j].name == name);
        }
    }
    assert forall|i: int| 0 <= i < g1.nodes.len() implies node_wf(#[trigger] g1.nodes[i]) by {
        if i < g.nodes.len() {
            assert(node_wf(g.nodes[i]));
        } else {
            assert(g1.nodes[i] == spec_new_node(name, data));
        }
    }
    assert forall|k: int| 0 <= k < g1.node_edges.len() implies g1.node_edge_wf(
        #[trigger] g1.node_edges[k],
    ) by {
        assert(g.node_edge_wf(g.node_edges[k]));
    }
    assert forall|k: int| 0 <= k < g1.slot_edges.len() implies g1.slot_edge_wf(
        #[trigger] g1.slot_edges[k],
    ) by {
        assert(g.slot_edge_wf(g.slot_edges[k]));
        assert(g1.nodes[g.slot_edges[k].output_node as int] == g.nodes[g.slot_edges[k].output_node as int]);
        assert(g1.nodes[g.slot_edges[k].input_node as int] == g.nodes[g.slot_edges[k].input_node as int]);
    }
}

/// Whether a string equals another.
fn compare_str(a: &String, b: &str) -> (r: bool)
    ensures
        r == (a@ == b@),
{
    let bo: String = b.to_owned();
    *a == bo
}

} // verus!
