//! The render-to-texture pass chain.
//!
//! The chain adds four nodes to a graph that already holds the engine's
//! base nodes: a post pass, the camera that drives it, and two texture
//! nodes that lazily allocate the offscreen color and depth targets.  It
//! then wires the pieces with named slot edges: the texture nodes feed the
//! main pass's color and depth attachments, and the window's swap chain and
//! depth texture feed the post pass, which renders the offscreen result to
//! the screen before the UI pass.
//!
//! The wiring is validated as it is built: a second build on the same graph
//! fails at once with a duplicate-name error for the post pass, and a slot
//! edge between slots of different resource types is never accepted.

use vstd::prelude::*;

use crate::camera::{spec_register_camera, ActiveCameras};
use crate::graph::{
    result_view, spec_add_node, spec_add_node_edge, spec_add_slot_edge, spec_find_node,
    spec_find_slot, GraphError, GraphErrorView, GraphView, NodeData, NodeDataView, RenderGraph,
};
use crate::pass::{
    ColorAttachmentView, DepthStencilAttachmentView, LoadOp, Operations, PassDescriptor,
    PassDescriptorView, PassNodeData, PassNodeView, RenderPassColorAttachmentDescriptor,
    RenderPassDepthStencilAttachmentDescriptor, TextureAttachment, TextureAttachmentView,
    ClearColor,
};
use crate::resource::ResourceType;
use crate::texture::{
    spec_default_sampler, Extent3d, SamplerDescriptor, TextureDescriptor, TextureDimension,
    TextureFormat, TEXTURE_USAGE_OUTPUT_ATTACHMENT, TEXTURE_USAGE_SAMPLED,
};
use crate::texture_node::{
    TextureNode, DEPTH_TEXTURE_NODE, RENDER_TEXTURE_HANDLE, TEXTURE_NODE, TEXTURE_SLOT,
};

verus! {

/// The name of the final post-process pass node.
pub const POST_PASS: &'static str = "post_pass";

/// The name of the camera that drives the post pass.
pub const POST_PASS_CAMERA: &'static str = "post_pass_camera";

/// The name of the engine's main pass node.
pub const MAIN_PASS: &'static str = "main_pass";

/// The name of the engine's UI pass node.
pub const UI_PASS: &'static str = "ui_pass";

/// The name of the engine node that publishes the window's swap chain
/// texture.
pub const PRIMARY_SWAP_CHAIN: &'static str = "primary_swap_chain";

/// The name of the engine node that publishes the window's depth texture.
pub const MAIN_DEPTH_TEXTURE: &'static str = "main_depth_texture";

/// The name of a pass's color attachment input slot.
pub const COLOR_ATTACHMENT_SLOT: &'static str = "color_attachment";

/// The name of a pass's depth attachment input slot.
pub const DEPTH_SLOT: &'static str = "depth";

/// Marker for entities drawn by the final post-process pass.
#[derive(Clone, Copy, Debug, Default)]
pub struct PostPass;

/// A pass descriptor with one color attachment reading the
/// `color_attachment` input, cleared to the given color; a depth attachment
/// reading the `depth` input, cleared to the far plane; no multisampling.
pub open spec fn spec_input_pass_descriptor(clear: ClearColor) -> PassDescriptorView {
    PassDescriptorView {
        color_attachments: seq![
            (ColorAttachmentView {
                attachment: TextureAttachmentView::Input(COLOR_ATTACHMENT_SLOT@),
                resolve_target: None,
                ops: Operations { load: LoadOp::Clear(clear), store: true },
            }),
        ],
        depth_stencil_attachment: Some(
            DepthStencilAttachmentView {
                attachment: TextureAttachmentView::Input(DEPTH_SLOT@),
                depth_ops: Some(Operations { load: LoadOp::Clear(1000), store: true }),
                stencil_ops: None,
            },
        ),
        sample_count: 1,
    }
}

/// The input slots such a pass exposes: `color_attachment` and `depth`,
/// both carrying textures.
pub proof fn lemma_input_pass_slots(clear: ClearColor)
    ensures
        crate::pass::spec_pass_input_slots(spec_input_pass_descriptor(clear)) =~= seq![
            (crate::slot::SlotInfoView {
                name: COLOR_ATTACHMENT_SLOT@,
                resource_type: ResourceType::Texture,
            }),
            (crate::slot::SlotInfoView { name: DEPTH_SLOT@, resource_type: ResourceType::Texture }),
        ],
{
    let d = spec_input_pass_descriptor(clear);
    assert(d.color_attachments.drop_last() =~= Seq::<ColorAttachmentView>::empty());
    assert(crate::pass::spec_color_input_slots(Seq::<ColorAttachmentView>::empty())
        =~= Seq::<crate::slot::SlotInfoView>::empty());
}

/// The descriptor of the post pass: its color attachment cleared to
/// magenta.
pub open spec fn spec_post_pass_descriptor() -> PassDescriptorView {
    spec_input_pass_descriptor(ClearColor { red: 255, green: 0, blue: 255, alpha: 255 })
}

/// The post pass node: the descriptor above, driven by the post pass
/// camera.
pub open spec fn spec_post_pass_data() -> NodeDataView {
    NodeDataView::Pass(
        PassNodeView { descriptor: spec_post_pass_descriptor(), cameras: seq![POST_PASS_CAMERA@] },
    )
}

/// The offscreen color target: a screen-sized render target that shaders
/// can sample, published under the render texture handle together with a
/// default sampler.
pub open spec fn spec_color_texture_node() -> TextureNode {
    TextureNode {
        texture_descriptor: TextureDescriptor {
            size: Extent3d { width: 1280, height: 720, depth: 1 },
            mip_level_count: 1,
            sample_count: 1,
            dimension: TextureDimension::D2,
            format: TextureFormat::Bgra8UnormSrgb,
            usage: TEXTURE_USAGE_OUTPUT_ATTACHMENT | TEXTURE_USAGE_SAMPLED,
        },
        sampler_descriptor: Some(spec_default_sampler()),
        handle: Some(RENDER_TEXTURE_HANDLE),
    }
}

/// The offscreen depth target: screen sized, in the depth format, not
/// published under any handle.
pub open spec fn spec_depth_texture_node() -> TextureNode {
    TextureNode {
        texture_descriptor: TextureDescriptor {
            size: Extent3d { width: 1280, height: 720, depth: 1 },
            mip_level_count: 1,
            sample_count: 1,
            dimension: TextureDimension::D2,
            format: TextureFormat::Depth32Float,
            usage: TEXTURE_USAGE_OUTPUT_ATTACHMENT | TEXTURE_USAGE_SAMPLED,
        },
        sampler_descriptor: None,
        handle: None,
    }
}

/// Carries an earlier failure past a later step: once a step of the chain
/// has failed, the later steps do not run.
pub open spec fn seq_then(
    s: (GraphView, Result<(), GraphErrorView>),
    t: (GraphView, Result<(), GraphErrorView>),
) -> (GraphView, Result<(), GraphErrorView>) {
    if s.1 is Err {
        s
    } else {
        t
    }
}

/// What building the chain does, step by step: add the post pass, its
/// camera and the two texture nodes, then wire the edges.  The first
/// failing step stops the build with its error.
pub open spec fn spec_build_chain(g: GraphView) -> (GraphView, Result<(), GraphErrorView>) {
    let s1 = spec_add_node(g, POST_PASS@, spec_post_pass_data());
    let s2 = seq_then(
        s1,
        spec_add_node(s1.0, POST_PASS_CAMERA@, NodeDataView::Camera(POST_PASS_CAMERA@)),
    );
    let s3 = seq_then(s2, spec_add_node_edge(s2.0, POST_PASS_CAMERA@, POST_PASS@));
    let s4 = seq_then(
        s3,
        spec_add_node(s3.0, TEXTURE_NODE@, NodeDataView::Texture(spec_color_texture_node())),
    );
    let s5 = seq_then(
        s4,
        spec_add_node(s4.0, DEPTH_TEXTURE_NODE@, NodeDataView::Texture(spec_depth_texture_node())),
    );
    let s6 = seq_then(s5, spec_add_node_edge(s5.0, TEXTURE_NODE@, MAIN_PASS@));
    let s7 = seq_then(
        s6,
        spec_add_slot_edge(s6.0, TEXTURE_NODE@, TEXTURE_SLOT@, MAIN_PASS@, COLOR_ATTACHMENT_SLOT@),
    );
    let s8 = seq_then(
        s7,
        spec_add_slot_edge(s7.0, DEPTH_TEXTURE_NODE@, TEXTURE_SLOT@, MAIN_PASS@, DEPTH_SLOT@),
    );
    let s9 = seq_then(s8, spec_add_node_edge(s8.0, MAIN_PASS@, POST_PASS@));
    let s10 = seq_then(
        s9,
        spec_add_slot_edge(
            s9.0,
            PRIMARY_SWAP_CHAIN@,
            TEXTURE_SLOT@,
            POST_PASS@,
            COLOR_ATTACHMENT_SLOT@,
        ),
    );
    let s11 = seq_then(
        s10,
        spec_add_slot_edge(s10.0, MAIN_DEPTH_TEXTURE@, TEXTURE_SLOT@, POST_PASS@, DEPTH_SLOT@),
    );
    seq_then(s11, spec_add_node_edge(s11.0, POST_PASS@, UI_PASS@))
}

/// Whether the chain's first two steps succeed on this graph; exactly then
/// is the post pass camera registered as active.
pub open spec fn spec_chain_registers_camera(g: GraphView) -> bool {
    !g.has_node(POST_PASS@) && !g.has_node(POST_PASS_CAMERA@)
}

/// Whether the graph has a node of this name with an input slot of this
/// name that carries textures.
pub open spec fn spec_has_texture_input(g: GraphView, node: Seq<char>, slot: Seq<char>) -> bool {
    match spec_find_node(g.nodes, node) {
        Some(i) => match spec_find_slot(g.nodes[i].input_slots, slot) {
            Some(s) => g.nodes[i].input_slots[s].resource_type == ResourceType::Texture,
            None => false,
        },
        None => false,
    }
}

/// Whether the graph has a node of this name with an output slot of this
/// name that carries textures.
pub open spec fn spec_has_texture_output(g: GraphView, node: Seq<char>, slot: Seq<char>) -> bool {
    match spec_find_node(g.nodes, node) {
        Some(i) => match spec_find_slot(g.nodes[i].output_slots, slot) {
            Some(s) => g.nodes[i].output_slots[s].resource_type == ResourceType::Texture,
            None => false,
        },
        None => false,
    }
}

/// What the chain needs of the graph it is built into: the four names it
/// adds are free, the main pass offers texture inputs for its color and
/// depth attachments, the window nodes offer texture outputs, and the UI
/// pass exists.
pub open spec fn spec_chain_prereqs(g: GraphView) -> bool {
    &&& !g.has_node(POST_PASS@)
    &&& !g.has_node(POST_PASS_CAMERA@)
    &&& !g.has_node(TEXTURE_NODE@)
    &&& !g.has_node(DEPTH_TEXTURE_NODE@)
    &&& spec_has_texture_input(g, MAIN_PASS@, COLOR_ATTACHMENT_SLOT@)
    &&& spec_has_texture_input(g, MAIN_PASS@, DEPTH_SLOT@)
    &&& spec_has_texture_output(g, PRIMARY_SWAP_CHAIN@, TEXTURE_SLOT@)
    &&& spec_has_texture_output(g, MAIN_DEPTH_TEXTURE@, TEXTURE_SLOT@)
    &&& g.has_node(UI_PASS@)
}

/// Builders of the offscreen render-to-texture chain.
pub trait RenderToTextureGraphBuilder {
    /// Adds the pass chain to this graph and registers its camera.
    fn add_render_to_texture_graph(&mut self, active_cameras: &mut ActiveCameras) -> Result<
        (),
        GraphError,
    >;
}

impl RenderToTextureGraphBuilder for RenderGraph {
    fn add_render_to_texture_graph(&mut self, active_cameras: &mut ActiveCameras) -> Result<
        (),
        GraphError,
    > {
        self.add_render_to_texture_chain(active_cameras)
    }
}

impl RenderGraph {
    /// Adds the render-to-texture pass chain to this graph: the post pass,
    /// its camera, and the color and depth texture nodes, wired by name to
    /// the engine's main pass, swap chain, depth texture and UI pass.  The
    /// first failing step stops the build with its error; in particular a
    /// graph that already holds a node named `post_pass` is left unchanged
    /// and the duplicate-name error is returned.
    pub fn add_render_to_texture_chain(&mut self, active_cameras: &mut ActiveCameras) -> (r:
        Result<(), GraphError>)
        ensures
            (final(self)@, result_view(r)) == spec_build_chain(old(self)@),
            old(self)@.wf() ==> final(self)@.wf(),
            final(active_cameras)@ == (if spec_chain_registers_camera(old(self)@) {
                spec_register_camera(old(active_cameras)@, POST_PASS_CAMERA@)
            } else {
                old(active_cameras)@
            }),
    {
        let mut pass_node = PassNodeData::new(post_pass_descriptor());
        pass_node.add_camera(POST_PASS_CAMERA);
        let pass_data = NodeData::Pass(pass_node);
        proof {
            assert(pass_data@->Pass_0.descriptor.color_attachments
                =~= spec_post_pass_descriptor().color_attachments);
            assert(pass_data@->Pass_0.cameras =~= seq![POST_PASS_CAMERA@]);
            assert(pass_data@ == spec_post_pass_data());
        }
        match self.add_node(POST_PASS, pass_data) {
            Ok(()) => {},
            Err(e) => {
                proof {
                    assert(old(self)@.has_node(POST_PASS@));
                    assert(!spec_chain_registers_camera(old(self)@));
                }
                return Err(e);
            },
        }
        match self.add_node(POST_PASS_CAMERA, NodeData::Camera(POST_PASS_CAMERA.to_owned())) {
            Ok(()) => {},
            Err(e) => {
                proof {
                    crate::graph::lemma_find_node_push(
                        old(self)@.nodes,
                        crate::graph::spec_new_node(POST_PASS@, spec_post_pass_data()),
                        POST_PASS_CAMERA@,
                    );
                    reveal_strlit("post_pass");
                    reveal_strlit("post_pass_camera");
                    assert(POST_PASS@.len() == 9);
                    assert(POST_PASS_CAMERA@.len() == 16);
                    assert(POST_PASS@ != POST_PASS_CAMERA@);
                    assert(old(self)@.has_node(POST_PASS_CAMERA@));
                    assert(!spec_chain_registers_camera(old(self)@));
                }
                return Err(e);
            },
        }
        proof {
            crate::graph::lemma_find_node_push(
                old(self)@.nodes,
                crate::graph::spec_new_node(POST_PASS@, spec_post_pass_data()),
                POST_PASS_CAMERA@,
            );
            assert(spec_chain_registers_camera(old(self)@));
        }
        active_cameras.add(POST_PASS_CAMERA);
        match self.add_node_edge(POST_PASS_CAMERA, POST_PASS) {
            Ok(()) => {},
            Err(e) => {
                return Err(e);
            },
        }
        let color_node = TextureNode::new(
            TextureDescriptor {
                size: Extent3d::new(1280, 720, 1),
                mip_level_count: 1,
                sample_count: 1,
                dimension: TextureDimension::D2,
                format: TextureFormat::default_format(),
                usage: TEXTURE_USAGE_OUTPUT_ATTACHMENT | TEXTURE_USAGE_SAMPLED,
            },
            Some(SamplerDescriptor::default_descriptor()),
            Some(RENDER_TEXTURE_HANDLE),
        );
        proof {
            assert(color_node == spec_color_texture_node());
        }
        match self.add_node(TEXTURE_NODE, NodeData::Texture(color_node)) {
            Ok(()) => {},
            Err(e) => {
                return Err(e);
            },
        }
        let depth_node = TextureNode::new(
            TextureDescriptor {
                size: Extent3d::new(1280, 720, 1),
                mip_level_count: 1,
                sample_count: 1,
                dimension: TextureDimension::D2,
                format: TextureFormat::Depth32Float,
                usage: TEXTURE_USAGE_OUTPUT_ATTACHMENT | TEXTURE_USAGE_SAMPLED,
            },
            None,
            None,
        );
        match self.add_node(DEPTH_TEXTURE_NODE, NodeData::Texture(depth_node)) {
            Ok(()) => {},
            Err(e) => {
                return Err(e);
            },
        }
        match self.add_node_edge(TEXTURE_NODE, MAIN_PASS) {
            Ok(()) => {},
            Err(e) => {
                return Err(e);
            },
        }
        match self.add_slot_edge(TEXTURE_NODE, TEXTURE_SLOT, MAIN_PASS, COLOR_ATTACHMENT_SLOT) {
            Ok(()) => {},
            Err(e) => {
                return Err(e);
            },
        }
        match self.add_slot_edge(DEPTH_TEXTURE_NODE, TEXTURE_SLOT, MAIN_PASS, DEPTH_SLOT) {
            Ok(()) => {},
            Err(e) => {
                return Err(e);
            },
        }
        match self.add_node_edge(MAIN_PASS, POST_PASS) {
            Ok(()) => {},
            Err(e) => {
                return Err(e);
            },
        }
        match self.add_slot_edge(PRIMARY_SWAP_CHAIN, TEXTURE_SLOT, POST_PASS, COLOR_ATTACHMENT_SLOT
        ) {
            Ok(()) => {},
            Err(e) => {
                return Err(e);
            },
        }
        match self.add_slot_edge(MAIN_DEPTH_TEXTURE, TEXTURE_SLOT, POST_PASS, DEPTH_SLOT) {
            Ok(()) => {},
            Err(e) => {
                return Err(e);
            },
        }
        match self.add_node_edge(POST_PASS, UI_PASS) {
            Ok(()) => {},
            Err(e) => {
                return Err(e);
            },
        }
        Ok(())
    }
}

/// A pass descriptor with `color_attachment` and `depth` inputs, as an
/// executable value.
pub fn input_pass_descriptor(clear: ClearColor) -> (r: PassDescriptor)
    ensures
        r@ == spec_input_pass_descriptor(clear),
{
    let mut color_attachments: Vec<RenderPassColorAttachmentDescriptor> = Vec::new();
    color_attachments.push(
        RenderPassColorAttachmentDescriptor {
            attachment: TextureAttachment::Input(COLOR_ATTACHMENT_SLOT.to_owned()),
            resolve_target: None,
            ops: Operations { load: LoadOp::Clear(clear), store: true },
        },
    );
    let r = PassDescriptor {
        color_attachments,
        depth_stencil_attachment: Some(
            RenderPassDepthStencilAttachmentDescriptor {
                attachment: TextureAttachment::Input(DEPTH_SLOT.to_owned()),
                depth_ops: Some(Operations { load: LoadOp::Clear(1000), store: true }),
                stencil_ops: None,
            },
        ),
        sample_count: 1,
    };
    proof {
        assert(r@.color_attachments =~= spec_input_pass_descriptor(clear).color_attachments);
    }
    r
}

/// The post pass descriptor as an executable value.
fn post_pass_descriptor() -> (r: PassDescriptor)
    ensures
        r@ == spec_post_pass_descriptor(),
{
    input_pass_descriptor(ClearColor { red: 255, green: 0, blue: 255, alpha: 255 })
}

/// The base graph the engine supplies before the chain is added: the main
/// pass with texture inputs for its color and depth attachments, the
/// window's swap chain and depth texture as texture sources, and the UI
/// pass.  It satisfies every prerequisite of the chain.
pub fn base_render_graph() -> (r: RenderGraph)
    ensures
        r@.wf(),
        spec_chain_prereqs(r@),
        r@.nodes.len() == 4,
        r@.node_edges.len() == 0,
        r@.slot_edges.len() == 0,
{
    let ghost main_data = NodeDataView::Pass(
        PassNodeView {
            descriptor: spec_input_pass_descriptor(
                ClearColor { red: 6, green: 0, blue: 9, alpha: 255 },
            ),
            cameras: Seq::<Seq<char>>::empty(),
        },
    );
    let ghost ui_data = NodeDataView::Pass(
        PassNodeView {
            descriptor: spec_input_pass_descriptor(
                ClearColor { red: 0, green: 0, blue: 0, alpha: 0 },
            ),
            cameras: Seq::<Seq<char>>::empty(),
        },
    );
    let ghost window_slots = seq![
        (crate::slot::SlotInfoView { name: TEXTURE_SLOT@, resource_type: ResourceType::Texture }),
    ];
    proof {
        reveal_strlit("main_pass");
        reveal_strlit("ui_pass");
        reveal_strlit("primary_swap_chain");
        reveal_strlit("main_depth_texture");
        reveal_strlit("post_pass");
        reveal_strlit("post_pass_camera");
        reveal_strlit("texure_node");
        reveal_strlit("depth_texure_node");
        assert(MAIN_PASS@.len() == 9);
        assert(UI_PASS@.len() == 7);
        assert(PRIMARY_SWAP_CHAIN@.len() == 18);
        assert(MAIN_DEPTH_TEXTURE@.len() == 18);
        assert(POST_PASS@.len() == 9);
        assert(POST_PASS_CAMERA@.len() == 16);
        assert(TEXTURE_NODE@.len() == 11);
        assert(DEPTH_TEXTURE_NODE@.len() == 17);
        assert(PRIMARY_SWAP_CHAIN@[0] == 'p' && MAIN_DEPTH_TEXTURE@[0] == 'm');
        assert(PRIMARY_SWAP_CHAIN@ != MAIN_DEPTH_TEXTURE@);
        assert(POST_PASS@[0] == 'p' && MAIN_PASS@[0] == 'm');
        assert(POST_PASS@ != MAIN_PASS@);
    }
    let mut g = RenderGraph::new();
    let main_pass = PassNodeData::new(
        input_pass_descriptor(ClearColor { red: 6, green: 0, blue: 9, alpha: 255 }),
    );
    let main_node = NodeData::Pass(main_pass);
    proof {
        assert(main_node@->Pass_0.descriptor.color_attachments =~= spec_input_pass_descriptor(
            (ClearColor { red: 6, green: 0, blue: 9, alpha: 255 }),
        ).color_attachments);
        assert(main_node@->Pass_0.cameras =~= Seq::<Seq<char>>::empty());
        assert(main_node@ == main_data);
    }
    let ghost g0 = g@;
    match g.add_node(MAIN_PASS, main_node) {
        Ok(()) => {},
        Err(_) => {
            proof {
                assert(false);
            }
        },
    }
    let ghost g1 = g@;
    let mut swap_slots: Vec<crate::slot::ResourceSlotInfo> = Vec::new();
    swap_slots.push(
        crate::slot::ResourceSlotInfo {
            name: TEXTURE_SLOT.to_owned(),
            resource_type: ResourceType::Texture,
        },
    );
    proof {
        assert(crate::slot::slot_infos_view(swap_slots@) =~= window_slots);
        crate::graph::lemma_find_node_push(
            g0.nodes,
            crate::graph::spec_new_node(MAIN_PASS@, main_data),
            PRIMARY_SWAP_CHAIN@,
        );
    }
    let swap_node = NodeData::Engine { inputs: Vec::new(), outputs: swap_slots };
    proof {
        assert(swap_node@ matches NodeDataView::Engine { inputs, outputs } && inputs
            =~= Seq::<crate::slot::SlotInfoView>::empty() && outputs =~= window_slots);
        assert(swap_node@ == (NodeDataView::Engine {
            inputs: Seq::<crate::slot::SlotInfoView>::empty(),
            outputs: window_slots,
        }));
    }
    match g.add_node(PRIMARY_SWAP_CHAIN, swap_node) {
        Ok(()) => {},
        Err(_) => {
            proof {
                assert(false);
            }
        },
    }
    let ghost g2 = g@;
    let mut depth_slots: Vec<crate::slot::ResourceSlotInfo> = Vec::new();
    depth_slots.push(
        crate::slot::ResourceSlotInfo {
            name: TEXTURE_SLOT.to_owned(),
            resource_type: ResourceType::Texture,
        },
    );
    proof {
        assert(crate::slot::slot_infos_view(depth_slots@) =~= window_slots);
        crate::graph::lemma_find_node_push(
            g1.nodes,
            crate::graph::spec_new_node(PRIMARY_SWAP_CHAIN@, (NodeDataView::Engine { inputs: Seq::<crate::slot::SlotInfoView>::empty(), outputs: window_slots })),
            MAIN_DEPTH_TEXTURE@,
        );
        crate::graph::lemma_find_node_push(
            g0.nodes,
            crate::graph::spec_new_node(MAIN_PASS@, main_data),
            MAIN_DEPTH_TEXTURE@,
        );
    }
    let window_depth_node = NodeData::Engine { inputs: Vec::new(), outputs: depth_slots };
    proof {
        assert(window_depth_node@ matches NodeDataView::Engine { inputs, outputs } && inputs
            =~= Seq::<crate::slot::SlotInfoView>::empty() && outputs =~= window_slots);
        assert(window_depth_node@ == (NodeDataView::Engine {
            inputs: Seq::<crate::slot::SlotInfoView>::empty(),
            outputs: window_slots,
        }));
    }
    match g.add_node(MAIN_DEPTH_TEXTURE, window_depth_node) {
        Ok(()) => {},
        Err(_) => {
            proof {
                assert(false);
            }
        },
    }
    let ghost g3 = g@;
    let ui_pass = PassNodeData::new(
        input_pass_descriptor(ClearColor { red: 0, green: 0, blue: 0, alpha: 0 }),
    );
    let ui_node = NodeData::Pass(ui_pass);
    proof {
        assert(ui_node@->Pass_0.descriptor.color_attachments =~= spec_input_pass_descriptor(
            (ClearColor { red: 0, green: 0, blue: 0, alpha: 0 }),
        ).color_attachments);
        assert(ui_node@->Pass_0.cameras =~= Seq::<Seq<char>>::empty());
        assert(ui_node@ == ui_data);
        crate::graph::lemma_find_node_push(
            g2.nodes,
            crate::graph::spec_new_node(MAIN_DEPTH_TEXTURE@, (NodeDataView::Engine { inputs: Seq::<crate::slot::SlotInfoView>::empty(), outputs: window_slots })),
            UI_PASS@,
        );
        crate::graph::lemma_find_node_push(
            g1.nodes,
            crate::graph::spec_new_node(PRIMARY_SWAP_CHAIN@, (NodeDataView::Engine { inputs: Seq::<crate::slot::SlotInfoView>::empty(), outputs: window_slots })),
            UI_PASS@,
        );
        crate::graph::lemma_find_node_push(
            g0.nodes,
            crate::graph::spec_new_node(MAIN_PASS@, main_data),
            UI_PASS@,
        );
    }
    match g.add_node(UI_PASS, ui_node) {
        Ok(()) => {},
        Err(_) => {
            proof {
                assert(false);
            }
        },
    }
    proof {
        lemma_base_graph_prereqs(g@, g0, g1, g2, g3, main_data, ui_data, window_slots);
    }
    g
}

/// The four base nodes, added in order to an empty graph, satisfy the
/// chain's prerequisites.
proof fn lemma_base_graph_prereqs(
    g: GraphView,
    g0: GraphView,
    g1: GraphView,
    g2: GraphView,
    g3: GraphView,
    main_data: NodeDataView,
    ui_data: NodeDataView,
    window_slots: Seq<crate::slot::SlotInfoView>,
)
    requires
        g0.nodes.len() == 0,
        g1.nodes == g0.nodes.push(crate::graph::spec_new_node(MAIN_PASS@, main_data)),
        g2.nodes == g1.nodes.push(
            crate::graph::spec_new_node(PRIMARY_SWAP_CHAIN@, (NodeDataView::Engine { inputs: Seq::<crate::slot::SlotInfoView>::empty(), outputs: window_slots })),
        ),
        g3.nodes == g2.nodes.push(
            crate::graph::spec_new_node(MAIN_DEPTH_TEXTURE@, (NodeDataView::Engine { inputs: Seq::<crate::slot::SlotInfoView>::empty(), outputs: window_slots })),
        ),
        g.nodes == g3.nodes.push(crate::graph::spec_new_node(UI_PASS@, ui_data)),
        main_data == (NodeDataView::Pass(
            PassNodeView {
                descriptor: spec_input_pass_descriptor(
                    (ClearColor { red: 6, green: 0, blue: 9, alpha: 255 }),
                ),
                cameras: Seq::<Seq<char>>::empty(),
            },
        )),
        ui_data == (NodeDataView::Pass(
            PassNodeView {
                descriptor: spec_input_pass_descriptor(
                    (ClearColor { red: 0, green: 0, blue: 0, alpha: 0 }),
                ),
                cameras: Seq::<Seq<char>>::empty(),
            },
        )),
        window_slots == seq![
            (crate::slot::SlotInfoView {
                name: TEXTURE_SLOT@,
                resource_type: ResourceType::Texture,
            }),
        ],
    ensures
        spec_chain_prereqs(g),
{
    reveal_strlit("main_pass");
    reveal_strlit("ui_pass");
    reveal_strlit("primary_swap_chain");
    reveal_strlit("main_depth_texture");
    reveal_strlit("post_pass");
    reveal_strlit("post_pass_camera");
    reveal_strlit("texure_node");
    reveal_strlit("depth_texure_node");
    reveal_strlit("texture");
    reveal_strlit("color_attachment");
    reveal_strlit("depth");
    assert(POST_PASS@ != MAIN_PASS@) by {
        assert(POST_PASS@[0] == 'p' && MAIN_PASS@[0] == 'm');
    }
    assert(g.nodes.len() == 4);
    assert(g.nodes[0] == crate::graph::spec_new_node(MAIN_PASS@, main_data));
    assert(g.nodes[1] == crate::graph::spec_new_node(
        PRIMARY_SWAP_CHAIN@,
        (NodeDataView::Engine { inputs: Seq::<crate::slot::SlotInfoView>::empty(), outputs: window_slots }),
    ));
    assert(g.nodes[2] == crate::graph::spec_new_node(
        MAIN_DEPTH_TEXTURE@,
        (NodeDataView::Engine { inputs: Seq::<crate::slot::SlotInfoView>::empty(), outputs: window_slots }),
    ));
    assert(g.nodes[3] == crate::graph::spec_new_node(UI_PASS@, ui_data));
    // the four fresh chain names are not taken
    let fresh = seq![POST_PASS@, POST_PASS_CAMERA@, TEXTURE_NODE@, DEPTH_TEXTURE_NODE@];
    assert forall|t: int| 0 <= t < 4 implies spec_find_node(g.nodes, #[trigger] fresh[t]) is None by {
        assert forall|j: int| 0 <= j < g.nodes.len() implies (#[trigger] g.nodes[j]).name
            != fresh[t] by {
            assert(g.nodes[j] == g.nodes[0] || g.nodes[j] == g.nodes[1] || g.nodes[j]
                == g.nodes[2] || g.nodes[j] == g.nodes[3]);
            assert(g.nodes[j].name == MAIN_PASS@ || g.nodes[j].name == PRIMARY_SWAP_CHAIN@
                || g.nodes[j].name == MAIN_DEPTH_TEXTURE@ || g.nodes[j].name == UI_PASS@);
        }
        lemma_find_none(g.nodes, fresh[t]);
    }
    assert(spec_find_node(g.nodes, POST_PASS@) is None) by {
        assert(fresh[0] == POST_PASS@);
    }
    assert(spec_find_node(g.nodes, POST_PASS_CAMERA@) is None) by {
        assert(fresh[1] == POST_PASS_CAMERA@);
    }
    assert(spec_find_node(g.nodes, TEXTURE_NODE@) is None) by {
        assert(fresh[2] == TEXTURE_NODE@);
    }
    assert(spec_find_node(g.nodes, DEPTH_TEXTURE_NODE@) is None) by {
        assert(fresh[3] == DEPTH_TEXTURE_NODE@);
    }
    // the main pass is found first, with its two texture inputs
    crate::graph::lemma_find_node_at(g.nodes, MAIN_PASS@, 0);
    lemma_input_pass_slots((ClearColor { red: 6, green: 0, blue: 9, alpha: 255 }));
    assert(g.nodes[0].input_slots.len() == 2);
    assert(g.nodes[0].input_slots[0].name == COLOR_ATTACHMENT_SLOT@);
    assert(g.nodes[0].input_slots[1].name == DEPTH_SLOT@);
    assert(COLOR_ATTACHMENT_SLOT@ != DEPTH_SLOT@);
    crate::graph::lemma_find_slot_at(g.nodes[0].input_slots, COLOR_ATTACHMENT_SLOT@, 0);
    crate::graph::lemma_find_slot_at(g.nodes[0].input_slots, DEPTH_SLOT@, 1);
    assert(spec_has_texture_input(g, MAIN_PASS@, COLOR_ATTACHMENT_SLOT@));
    assert(spec_has_texture_input(g, MAIN_PASS@, DEPTH_SLOT@));
    // the window nodes are found, each with its texture output
    assert forall|j: int| 0 <= j < 1 implies (#[trigger] g.nodes[j]).name != PRIMARY_SWAP_CHAIN@ by {
        assert(g.nodes[0].name == MAIN_PASS@);
        assert(MAIN_PASS@.len() != PRIMARY_SWAP_CHAIN@.len());
    }
    crate::graph::lemma_find_node_at(g.nodes, PRIMARY_SWAP_CHAIN@, 1);
    assert forall|j: int| 0 <= j < 2 implies (#[trigger] g.nodes[j]).name != MAIN_DEPTH_TEXTURE@ by {
        assert(g.nodes[0].name == MAIN_PASS@);
        assert(g.nodes[1].name == PRIMARY_SWAP_CHAIN@);
        assert(MAIN_PASS@.len() != MAIN_DEPTH_TEXTURE@.len());
        assert(PRIMARY_SWAP_CHAIN@ != MAIN_DEPTH_TEXTURE@) by {
            assert(PRIMARY_SWAP_CHAIN@[0] == 'p' && MAIN_DEPTH_TEXTURE@[0] == 'm');
        }
    }
    crate::graph::lemma_find_node_at(g.nodes, MAIN_DEPTH_TEXTURE@, 2);
    crate::graph::lemma_find_slot_at(g.nodes[1].output_slots, TEXTURE_SLOT@, 0);
    crate::graph::lemma_find_slot_at(g.nodes[2].output_slots, TEXTURE_SLOT@, 0);
    assert(spec_has_texture_output(g, PRIMARY_SWAP_CHAIN@, TEXTURE_SLOT@));
    assert(spec_has_texture_output(g, MAIN_DEPTH_TEXTURE@, TEXTURE_SLOT@));
    // the UI pass exists
    assert forall|j: int| 0 <= j < 3 implies (#[trigger] g.nodes[j]).name != UI_PASS@ by {
        assert(g.nodes[0].name == MAIN_PASS@);
        assert(g.nodes[1].name == PRIMARY_SWAP_CHAIN@);
        assert(g.nodes[2].name == MAIN_DEPTH_TEXTURE@);
        assert(MAIN_PASS@.len() != UI_PASS@.len());
        assert(PRIMARY_SWAP_CHAIN@.len() != UI_PASS@.len());
        assert(MAIN_DEPTH_TEXTURE@.len() != UI_PASS@.len());
    }
    crate::graph::lemma_find_node_at(g.nodes, UI_PASS@, 3);
    assert(g.has_node(UI_PASS@));
}

/// No node of this list has the given name, so the search finds nothing.
proof fn lemma_find_none(nodes: Seq<crate::graph::NodeView>, name: Seq<char>)
    requires
        forall|j: int| 0 <= j < nodes.len() ==> (#[trigger] nodes[j]).name != name,
    ensures
        spec_find_node(nodes, name) is None,
{
    crate::graph::lemma_find_node_characterization(nodes, name);
    if spec_find_node(nodes, name) is Some {
        let i = spec_find_node(nodes, name)->0;
        assert(nodes[i].name != name);
    }
}

/// No edge of this list is the given one.
proof fn lemma_node_edge_free(edges: Seq<crate::graph::NodeEdge>, e: crate::graph::NodeEdge)
    requires
        forall|k: int| 0 <= k < edges.len() ==> #[trigger] edges[k] != e,
    ensures
        !edges.contains(e),
{
}

/// No slot edge of this list is the given one.
proof fn lemma_slot_edge_free(edges: Seq<crate::graph::SlotEdge>, e: crate::graph::SlotEdge)
    requires
        forall|k: int| 0 <= k < edges.len() ==> #[trigger] edges[k] != e,
    ensures
        !edges.contains(e),
{
}

/// On a well-formed graph that meets the chain's prerequisites, every step
/// of the build succeeds: success is owed exactly there.
pub proof fn lemma_build_chain_succeeds(g: GraphView)
    requires
        g.wf(),
        spec_chain_prereqs(g),
        g.nodes.len() + 4 <= usize::MAX,
    ensures
        spec_build_chain(g).1 is Ok,
{
    reveal_strlit("post_pass");
    reveal_strlit("post_pass_camera");
    reveal_strlit("texure_node");
    reveal_strlit("depth_texure_node");
    reveal_strlit("texture");
    reveal_strlit("color_attachment");
    reveal_strlit("depth");
    assert(POST_PASS@.len() == 9);
    assert(POST_PASS_CAMERA@.len() == 16);
    assert(TEXTURE_NODE@.len() == 11);
    assert(DEPTH_TEXTURE_NODE@.len() == 17);
    assert(COLOR_ATTACHMENT_SLOT@.len() == 16);
    assert(DEPTH_SLOT@.len() == 5);
    let len = g.nodes.len() as int;
    let n_pp = crate::graph::spec_new_node(POST_PASS@, spec_post_pass_data());
    let n_cam = crate::graph::spec_new_node(
        POST_PASS_CAMERA@,
        NodeDataView::Camera(POST_PASS_CAMERA@),
    );
    let n_tex = crate::graph::spec_new_node(
        TEXTURE_NODE@,
        NodeDataView::Texture(spec_color_texture_node()),
    );
    let n_dep = crate::graph::spec_new_node(
        DEPTH_TEXTURE_NODE@,
        NodeDataView::Texture(spec_depth_texture_node()),
    );
    let mi = spec_find_node(g.nodes, MAIN_PASS@)->0;
    let ui_i = spec_find_node(g.nodes, UI_PASS@)->0;
    let si = spec_find_node(g.nodes, PRIMARY_SWAP_CHAIN@)->0;
    let di = spec_find_node(g.nodes, MAIN_DEPTH_TEXTURE@)->0;
    crate::graph::lemma_find_node_characterization(g.nodes, MAIN_PASS@);
    crate::graph::lemma_find_node_characterization(g.nodes, UI_PASS@);
    crate::graph::lemma_find_node_characterization(g.nodes, PRIMARY_SWAP_CHAIN@);
    crate::graph::lemma_find_node_characterization(g.nodes, MAIN_DEPTH_TEXTURE@);
    // step 1: the post pass is added
    let s1 = spec_add_node(g, POST_PASS@, spec_post_pass_data());
    assert(s1.1 is Ok && s1.0.nodes == g.nodes.push(n_pp));
    // step 2: its camera is added
    crate::graph::lemma_find_node_push(g.nodes, n_pp, POST_PASS_CAMERA@);
    let s2 = seq_then(
        s1,
        spec_add_node(s1.0, POST_PASS_CAMERA@, NodeDataView::Camera(POST_PASS_CAMERA@)),
    );
    assert(s2.1 is Ok && s2.0.nodes == g.nodes.push(n_pp).push(n_cam));
    // step 3: camera before pass
    crate::graph::lemma_find_node_push(g.nodes, n_pp, POST_PASS@);
    crate::graph::lemma_find_node_push(s1.0.nodes, n_cam, POST_PASS@);
    crate::graph::lemma_find_node_push(s1.0.nodes, n_cam, POST_PASS_CAMERA@);
    assert(spec_find_node(s2.0.nodes, POST_PASS@) == Some(len));
    assert(spec_find_node(s2.0.nodes, POST_PASS_CAMERA@) == Some(len + 1));
    let e3 = crate::graph::NodeEdge {
        output_node: (len + 1) as usize,
        input_node: len as usize,
    };
    assert(!g.node_edges.contains(e3)) by {
        assert forall|k: int| 0 <= k < g.node_edges.len() implies #[trigger] g.node_edges[k]
            != e3 by {
            assert(g.node_edge_wf(g.node_edges[k]));
        }
        lemma_node_edge_free(g.node_edges, e3);
    }
    let s3 = seq_then(s2, spec_add_node_edge(s2.0, POST_PASS_CAMERA@, POST_PASS@));
    assert(s3.1 is Ok && s3.0.nodes == s2.0.nodes && s3.0.node_edges == g.node_edges.push(e3)
        && s3.0.slot_edges == g.slot_edges);
    // step 4: the color texture node
    crate::graph::lemma_find_node_push(g.nodes, n_pp, TEXTURE_NODE@);
    crate::graph::lemma_find_node_push(s1.0.nodes, n_cam, TEXTURE_NODE@);
    let s4 = seq_then(
        s3,
        spec_add_node(s3.0, TEXTURE_NODE@, NodeDataView::Texture(spec_color_texture_node())),
    );
    assert(s4.1 is Ok && s4.0.nodes == s2.0.nodes.push(n_tex));
    // step 5: the depth texture node
    crate::graph::lemma_find_node_push(g.nodes, n_pp, DEPTH_TEXTURE_NODE@);
    crate::graph::lemma_find_node_push(s1.0.nodes, n_cam, DEPTH_TEXTURE_NODE@);
    crate::graph::lemma_find_node_push(s2.0.nodes, n_tex, DEPTH_TEXTURE_NODE@);
    let s5 = seq_then(
        s4,
        spec_add_node(s4.0, DEPTH_TEXTURE_NODE@, NodeDataView::Texture(spec_depth_texture_node())),
    );
    assert(s5.1 is Ok && s5.0.nodes == s2.0.nodes.push(n_tex).push(n_dep));
    assert(s5.0.node_edges == g.node_edges.push(e3) && s5.0.slot_edges == g.slot_edges);
    // the four engine nodes keep their places and their slots
    crate::graph::lemma_find_node_push(g.nodes, n_pp, MAIN_PASS@);
    crate::graph::lemma_find_node_push(s1.0.nodes, n_cam, MAIN_PASS@);
    crate::graph::lemma_find_node_push(s2.0.nodes, n_tex, MAIN_PASS@);
    crate::graph::lemma_find_node_push(s4.0.nodes, n_dep, MAIN_PASS@);
    crate::graph::lemma_find_node_push(g.nodes, n_pp, UI_PASS@);
    crate::graph::lemma_find_node_push(s1.0.nodes, n_cam, UI_PASS@);
    crate::graph::lemma_find_node_push(s2.0.nodes, n_tex, UI_PASS@);
    crate::graph::lemma_find_node_push(s4.0.nodes, n_dep, UI_PASS@);
    crate::graph::lemma_find_node_push(g.nodes, n_pp, PRIMARY_SWAP_CHAIN@);
    crate::graph::lemma_find_node_push(s1.0.nodes, n_cam, PRIMARY_SWAP_CHAIN@);
    crate::graph::lemma_find_node_push(s2.0.nodes, n_tex, PRIMARY_SWAP_CHAIN@);
    crate::graph::lemma_find_node_push(s4.0.nodes, n_dep, PRIMARY_SWAP_CHAIN@);
    crate::graph::lemma_find_node_push(g.nodes, n_pp, MAIN_DEPTH_TEXTURE@);
    crate::graph::lemma_find_node_push(s1.0.nodes, n_cam, MAIN_DEPTH_TEXTURE@);
    crate::graph::lemma_find_node_push(s2.0.nodes, n_tex, MAIN_DEPTH_TEXTURE@);
    crate::graph::lemma_find_node_push(s4.0.nodes, n_dep, MAIN_DEPTH_TEXTURE@);
    assert(spec_find_node(s5.0.nodes, MAIN_PASS@) == Some(mi));
    assert(spec_find_node(s5.0.nodes, UI_PASS@) == Some(ui_i));
    assert(spec_find_node(s5.0.nodes, PRIMARY_SWAP_CHAIN@) == Some(si));
    assert(spec_find_node(s5.0.nodes, MAIN_DEPTH_TEXTURE@) == Some(di));
    assert(s5.0.nodes[mi] == g.nodes[mi]);
    assert(s5.0.nodes[si] == g.nodes[si]);
    assert(s5.0.nodes[di] == g.nodes[di]);
    // the texture nodes keep their places too
    crate::graph::lemma_find_node_push(s2.0.nodes, n_tex, TEXTURE_NODE@);
    crate::graph::lemma_find_node_push(s4.0.nodes, n_dep, TEXTURE_NODE@);
    crate::graph::lemma_find_node_push(g.nodes, n_pp, TEXTURE_NODE@);
    crate::graph::lemma_find_node_push(s4.0.nodes, n_dep, DEPTH_TEXTURE_NODE@);
    assert(spec_find_node(s5.0.nodes, TEXTURE_NODE@) == Some(len + 2));
    assert(spec_find_node(s5.0.nodes, DEPTH_TEXTURE_NODE@) == Some(len + 3));
    crate::graph::lemma_find_node_push(s2.0.nodes.push(n_tex), n_dep, POST_PASS@);
    crate::graph::lemma_find_node_push(s2.0.nodes, n_tex, POST_PASS@);
    assert(spec_find_node(s5.0.nodes, POST_PASS@) == Some(len));
    // step 6: the color texture runs before the main pass
    let e6 = crate::graph::NodeEdge { output_node: (len + 2) as usize, input_node: mi as usize };
    assert(!s5.0.node_edges.contains(e6)) by {
        assert forall|k: int| 0 <= k < s5.0.node_edges.len() implies #[trigger] s5.0.node_edges[k]
            != e6 by {
            if k < g.node_edges.len() {
                assert(g.node_edge_wf(g.node_edges[k]));
            } else {
                assert(s5.0.node_edges[k] == e3);
            }
        }
        lemma_node_edge_free(s5.0.node_edges, e6);
    }
    let s6 = seq_then(s5, spec_add_node_edge(s5.0, TEXTURE_NODE@, MAIN_PASS@));
    assert(s6.1 is Ok && s6.0.nodes == s5.0.nodes && s6.0.slot_edges == g.slot_edges);
    assert(s6.0.node_edges == g.node_edges.push(e3).push(e6));
    // slot facts for the texture nodes and the pass inputs
    assert(n_tex.output_slots == crate::texture_node::spec_texture_output_slots());
    assert(n_dep.output_slots == crate::texture_node::spec_texture_output_slots());
    assert(n_tex.output_slots[0].name == TEXTURE_SLOT@);
    crate::graph::lemma_find_slot_at(n_tex.output_slots, TEXTURE_SLOT@, 0);
    crate::graph::lemma_find_slot_at(n_dep.output_slots, TEXTURE_SLOT@, 0);
    lemma_input_pass_slots((ClearColor { red: 255, green: 0, blue: 255, alpha: 255 }));
    assert(n_pp.input_slots.len() == 2);
    assert(n_pp.input_slots[0].name == COLOR_ATTACHMENT_SLOT@);
    assert(n_pp.input_slots[1].name == DEPTH_SLOT@);
    crate::graph::lemma_find_slot_at(n_pp.input_slots, COLOR_ATTACHMENT_SLOT@, 0);
    crate::graph::lemma_find_slot_at(n_pp.input_slots, DEPTH_SLOT@, 1);
    let ci = spec_find_slot(g.nodes[mi].input_slots, COLOR_ATTACHMENT_SLOT@)->0;
    let dsi = spec_find_slot(g.nodes[mi].input_slots, DEPTH_SLOT@)->0;
    let so = spec_find_slot(g.nodes[si].output_slots, TEXTURE_SLOT@)->0;
    let dto = spec_find_slot(g.nodes[di].output_slots, TEXTURE_SLOT@)->0;
    // step 7: color texture into the main pass color attachment
    let e7 = crate::graph::SlotEdge {
        output_node: (len + 2) as usize,
        output_index: 0 as usize,
        input_node: mi as usize,
        input_index: ci as usize,
    };
    assert(!g.slot_edges.contains(e7)) by {
        assert forall|k: int| 0 <= k < g.slot_edges.len() implies #[trigger] g.slot_edges[k]
            != e7 by {
            assert(g.slot_edge_wf(g.slot_edges[k]));
        }
        lemma_slot_edge_free(g.slot_edges, e7);
    }
    let s7 = seq_then(
        s6,
        spec_add_slot_edge(s6.0, TEXTURE_NODE@, TEXTURE_SLOT@, MAIN_PASS@, COLOR_ATTACHMENT_SLOT@),
    );
    assert(s7.1 is Ok && s7.0.nodes == s5.0.nodes && s7.0.node_edges == s6.0.node_edges);
    assert(s7.0.slot_edges == g.slot_edges.push(e7));
    // step 8: depth texture into the main pass depth attachment
    let e8 = crate::graph::SlotEdge {
        output_node: (len + 3) as usize,
        output_index: 0 as usize,
        input_node: mi as usize,
        input_index: dsi as usize,
    };
    assert(!s7.0.slot_edges.contains(e8)) by {
        assert forall|k: int| 0 <= k < s7.0.slot_edges.len() implies #[trigger] s7.0.slot_edges[k]
            != e8 by {
            if k < g.slot_edges.len() {
                assert(g.slot_edge_wf(g.slot_edges[k]));
            } else {
                assert(s7.0.slot_edges[k] == e7);
            }
        }
        lemma_slot_edge_free(s7.0.slot_edges, e8);
    }
    let s8 = seq_then(
        s7,
        spec_add_slot_edge(s7.0, DEPTH_TEXTURE_NODE@, TEXTURE_SLOT@, MAIN_PASS@, DEPTH_SLOT@),
    );
    assert(s8.1 is Ok && s8.0.nodes == s5.0.nodes && s8.0.node_edges == s6.0.node_edges);
    assert(s8.0.slot_edges == g.slot_edges.push(e7).push(e8));
    // step 9: the main pass runs before the post pass
    let e9 = crate::graph::NodeEdge { output_node: mi as usize, input_node: len as usize };
    assert(!s8.0.node_edges.contains(e9)) by {
        assert forall|k: int| 0 <= k < s8.0.node_edges.len() implies #[trigger] s8.0.node_edges[k]
            != e9 by {
            if k < g.node_edges.len() {
                assert(g.node_edge_wf(g.node_edges[k]));
            } else {
                assert(s8.0.node_edges[k] == e3 || s8.0.node_edges[k] == e6);
            }
        }
        lemma_node_edge_free(s8.0.node_edges, e9);
    }
    let s9 = seq_then(s8, spec_add_node_edge(s8.0, MAIN_PASS@, POST_PASS@));
    assert(s9.1 is Ok && s9.0.nodes == s5.0.nodes && s9.0.slot_edges == s8.0.slot_edges);
    assert(s9.0.node_edges == g.node_edges.push(e3).push(e6).push(e9));
    // step 10: the swap chain into the post pass color attachment
    let e10 = crate::graph::SlotEdge {
        output_node: si as usize,
        output_index: so as usize,
        input_node: len as usize,
        input_index: 0 as usize,
    };
    assert(!s9.0.slot_edges.contains(e10)) by {
        assert forall|k: int| 0 <= k < s9.0.slot_edges.len() implies #[trigger] s9.0.slot_edges[k]
            != e10 by {
            if k < g.slot_edges.len() {
                assert(g.slot_edge_wf(g.slot_edges[k]));
            } else {
                assert(s9.0.slot_edges[k] == e7 || s9.0.slot_edges[k] == e8);
            }
        }
        lemma_slot_edge_free(s9.0.slot_edges, e10);
    }
    let s10 = seq_then(
        s9,
        spec_add_slot_edge(
            s9.0,
            PRIMARY_SWAP_CHAIN@,
            TEXTURE_SLOT@,
            POST_PASS@,
            COLOR_ATTACHMENT_SLOT@,
        ),
    );
    assert(s10.1 is Ok && s10.0.nodes == s5.0.nodes && s10.0.node_edges == s9.0.node_edges);
    assert(s10.0.slot_edges == g.slot_edges.push(e7).push(e8).push(e10));
    // step 11: the window depth texture into the post pass depth attachment
    let e11 = crate::graph::SlotEdge {
        output_node: di as usize,
        output_index: dto as usize,
        input_node: len as usize,
        input_index: 1 as usize,
    };
    assert(!s10.0.slot_edges.contains(e11)) by {
        assert forall|k: int| 0 <= k < s10.0.slot_edges.len() implies #[trigger] s10.0.slot_edges[k]
            != e11 by {
            if k < g.slot_edges.len() {
                assert(g.slot_edge_wf(g.slot_edges[k]));
            } else {
                assert(s10.0.slot_edges[k] == e7 || s10.0.slot_edges[k] == e8 || s10.0.slot_edges[k]
                    == e10);
            }
        }
        lemma_slot_edge_free(s10.0.slot_edges, e11);
    }
    let s11 = seq_then(
        s10,
        spec_add_slot_edge(s10.0, MAIN_DEPTH_TEXTURE@, TEXTURE_SLOT@, POST_PASS@, DEPTH_SLOT@),
    );
    assert(s11.1 is Ok && s11.0.nodes == s5.0.nodes);
    assert(s11.0.node_edges == g.node_edges.push(e3).push(e6).push(e9));
    // step 12: the post pass runs before the UI pass
    let e12 = crate::graph::NodeEdge { output_node: len as usize, input_node: ui_i as usize };
    assert(!s11.0.node_edges.contains(e12)) by {
        assert forall|k: int| 0 <= k < s11.0.node_edges.len() implies #[trigger] s11.0.node_edges[k]
            != e12 by {
            if k < g.node_edges.len() {
                assert(g.node_edge_wf(g.node_edges[k]));
            } else {
                assert(s11.0.node_edges[k] == e3 || s11.0.node_edges[k] == e6 || s11.0.node_edges[k]
                    == e9);
            }
        }
        lemma_node_edge_free(s11.0.node_edges, e12);
    }
    let s12 = seq_then(s11, spec_add_node_edge(s11.0, POST_PASS@, UI_PASS@));
    assert(s12.1 is Ok);
    assert(spec_build_chain(g) == s12);
}

/// Success is owed exactly on the prerequisites: on a well-formed graph
/// the chain builds without error if and only if its four names are free,
/// the main pass offers its two texture inputs, the window nodes offer
/// their texture outputs, and the UI pass exists.
pub proof fn lemma_build_chain_ok_iff(g: GraphView)
    requires
        g.wf(),
        g.nodes.len() + 4 <= usize::MAX,
    ensures
        (spec_build_chain(g).1 is Ok) <==> spec_chain_prereqs(g),
{
    if spec_chain_prereqs(g) {
        lemma_build_chain_succeeds(g);
    }
    if spec_build_chain(g).1 is Ok {
        lemma_build_chain_ok_implies_prereqs(g);
    }
}

/// A build that went through found everything it needed: the prerequisites
/// held of the graph it started from.
proof fn lemma_build_chain_ok_implies_prereqs(g: GraphView)
    requires
        g.wf(),
        spec_build_chain(g).1 is Ok,
    ensures
        spec_chain_prereqs(g),
{
    reveal_strlit("post_pass");
    reveal_strlit("post_pass_camera");
    reveal_strlit("texure_node");
    reveal_strlit("depth_texure_node");
    reveal_strlit("main_pass");
    reveal_strlit("ui_pass");
    reveal_strlit("primary_swap_chain");
    reveal_strlit("main_depth_texture");
    reveal_strlit("texture");
    reveal_strlit("color_attachment");
    reveal_strlit("depth");
    assert(POST_PASS@.len() == 9);
    assert(POST_PASS_CAMERA@.len() == 16);
    assert(TEXTURE_NODE@.len() == 11);
    assert(DEPTH_TEXTURE_NODE@.len() == 17);
    assert(MAIN_PASS@.len() == 9);
    assert(UI_PASS@.len() == 7);
    assert(PRIMARY_SWAP_CHAIN@.len() == 18);
    assert(MAIN_DEPTH_TEXTURE@.len() == 18);
    assert(COLOR_ATTACHMENT_SLOT@.len() == 16);
    assert(DEPTH_SLOT@.len() == 5);
    assert(POST_PASS@ != MAIN_PASS@) by {
        assert(POST_PASS@[0] == 'p' && MAIN_PASS@[0] == 'm');
    }
    let len = g.nodes.len() as int;
    let n_pp = crate::graph::spec_new_node(POST_PASS@, spec_post_pass_data());
    let n_cam = crate::graph::spec_new_node(
        POST_PASS_CAMERA@,
        NodeDataView::Camera(POST_PASS_CAMERA@),
    );
    let n_tex = crate::graph::spec_new_node(
        TEXTURE_NODE@,
        NodeDataView::Texture(spec_color_texture_node()),
    );
    let n_dep = crate::graph::spec_new_node(
        DEPTH_TEXTURE_NODE@,
        NodeDataView::Texture(spec_depth_texture_node()),
    );
    let s1 = spec_add_node(g, POST_PASS@, spec_post_pass_data());
    let s2 = seq_then(
        s1,
        spec_add_node(s1.0, POST_PASS_CAMERA@, NodeDataView::Camera(POST_PASS_CAMERA@)),
    );
    let s3 = seq_then(s2, spec_add_node_edge(s2.0, POST_PASS_CAMERA@, POST_PASS@));
    let s4 = seq_then(
        s3,
        spec_add_node(s3.0, TEXTURE_NODE@, NodeDataView::Texture(spec_color_texture_node())),
    );
    let s5 = seq_then(
        s4,
        spec_add_node(s4.0, DEPTH_TEXTURE_NODE@, NodeDataView::Texture(spec_depth_texture_node())),
    );
    let s6 = seq_then(s5, spec_add_node_edge(s5.0, TEXTURE_NODE@, MAIN_PASS@));
    let s7 = seq_then(
        s6,
        spec_add_slot_edge(s6.0, TEXTURE_NODE@, TEXTURE_SLOT@, MAIN_PASS@, COLOR_ATTACHMENT_SLOT@),
    );
    let s8 = seq_then(
        s7,
        spec_add_slot_edge(s7.0, DEPTH_TEXTURE_NODE@, TEXTURE_SLOT@, MAIN_PASS@, DEPTH_SLOT@),
    );
    let s9 = seq_then(s8, spec_add_node_edge(s8.0, MAIN_PASS@, POST_PASS@));
    let s10 = seq_then(
        s9,
        spec_add_slot_edge(
            s9.0,
            PRIMARY_SWAP_CHAIN@,
            TEXTURE_SLOT@,
            POST_PASS@,
            COLOR_ATTACHMENT_SLOT@,
        ),
    );
    let s11 = seq_then(
        s10,
        spec_add_slot_edge(s10.0, MAIN_DEPTH_TEXTURE@, TEXTURE_SLOT@, POST_PASS@, DEPTH_SLOT@),
    );
    let s12 = seq_then(s11, spec_add_node_edge(s11.0, POST_PASS@, UI_PASS@));
    assert(s1.1 is Ok && s2.1 is Ok && s3.1 is Ok && s4.1 is Ok && s5.1 is Ok && s6.1 is Ok
        && s7.1 is Ok && s8.1 is Ok && s9.1 is Ok && s10.1 is Ok && s11.1 is Ok && s12.1 is Ok);
    // the four fresh names were free
    assert(!g.has_node(POST_PASS@));
    crate::graph::lemma_find_node_push(g.nodes, n_pp, POST_PASS_CAMERA@);
    assert(!g.has_node(POST_PASS_CAMERA@));
    assert(s2.0.nodes == g.nodes.push(n_pp).push(n_cam));
    assert(s3.0.nodes == s2.0.nodes);
    crate::graph::lemma_find_node_push(g.nodes, n_pp, TEXTURE_NODE@);
    crate::graph::lemma_find_node_push(s1.0.nodes, n_cam, TEXTURE_NODE@);
    assert(!g.has_node(TEXTURE_NODE@));
    assert(s4.0.nodes == s2.0.nodes.push(n_tex));
    crate::graph::lemma_find_node_push(g.nodes, n_pp, DEPTH_TEXTURE_NODE@);
    crate::graph::lemma_find_node_push(s1.0.nodes, n_cam, DEPTH_TEXTURE_NODE@);
    crate::graph::lemma_find_node_push(s2.0.nodes, n_tex, DEPTH_TEXTURE_NODE@);
    assert(!g.has_node(DEPTH_TEXTURE_NODE@));
    assert(s5.0.nodes == s2.0.nodes.push(n_tex).push(n_dep));
    assert(s6.0.nodes == s5.0.nodes && s7.0.nodes == s5.0.nodes && s8.0.nodes == s5.0.nodes
        && s9.0.nodes == s5.0.nodes && s10.0.nodes == s5.0.nodes && s11.0.nodes == s5.0.nodes);
    // the engine nodes the wiring found already stood in the start graph
    crate::graph::lemma_find_node_push(g.nodes, n_pp, MAIN_PASS@);
    crate::graph::lemma_find_node_push(s1.0.nodes, n_cam, MAIN_PASS@);
    crate::graph::lemma_find_node_push(s2.0.nodes, n_tex, MAIN_PASS@);
    crate::graph::lemma_find_node_push(s4.0.nodes, n_dep, MAIN_PASS@);
    crate::graph::lemma_find_node_push(g.nodes, n_pp, UI_PASS@);
    crate::graph::lemma_find_node_push(s1.0.nodes, n_cam, UI_PASS@);
    crate::graph::lemma_find_node_push(s2.0.nodes, n_tex, UI_PASS@);
    crate::graph::lemma_find_node_push(s4.0.nodes, n_dep, UI_PASS@);
    crate::graph::lemma_find_node_push(g.nodes, n_pp, PRIMARY_SWAP_CHAIN@);
    crate::graph::lemma_find_node_push(s1.0.nodes, n_cam, PRIMARY_SWAP_CHAIN@);
    crate::graph::lemma_find_node_push(s2.0.nodes, n_tex, PRIMARY_SWAP_CHAIN@);
    crate::graph::lemma_find_node_push(s4.0.nodes, n_dep, PRIMARY_SWAP_CHAIN@);
    crate::graph::lemma_find_node_push(g.nodes, n_pp, MAIN_DEPTH_TEXTURE@);
    crate::graph::lemma_find_node_push(s1.0.nodes, n_cam, MAIN_DEPTH_TEXTURE@);
    crate::graph::lemma_find_node_push(s2.0.nodes, n_tex, MAIN_DEPTH_TEXTURE@);
    crate::graph::lemma_find_node_push(s4.0.nodes, n_dep, MAIN_DEPTH_TEXTURE@);
    // the texture and post pass nodes sit at their fresh indices
    crate::graph::lemma_find_node_push(g.nodes, n_pp, POST_PASS@);
    crate::graph::lemma_find_node_push(s1.0.nodes, n_cam, POST_PASS@);
    crate::graph::lemma_find_node_push(s2.0.nodes, n_tex, POST_PASS@);
    crate::graph::lemma_find_node_push(s4.0.nodes, n_dep, POST_PASS@);
    crate::graph::lemma_find_node_push(s2.0.nodes, n_tex, TEXTURE_NODE@);
    crate::graph::lemma_find_node_push(s4.0.nodes, n_dep, TEXTURE_NODE@);
    assert(spec_find_node(s5.0.nodes, TEXTURE_NODE@) == Some(len + 2));
    assert(spec_find_node(s5.0.nodes, POST_PASS@) == Some(len));
    crate::graph::lemma_find_node_characterization(g.nodes, MAIN_PASS@);
    // the main pass and its two texture inputs: step 7 looked the color
    // slot up and matched it against the color texture's output type
    let mi = spec_find_node(g.nodes, MAIN_PASS@)->0;
    assert(spec_find_node(g.nodes, MAIN_PASS@) is Some);
    assert(spec_find_node(s6.0.nodes, MAIN_PASS@) == Some(mi));
    assert(0 <= mi < g.nodes.len());
    assert(s6.0.nodes[mi] == g.nodes[mi]);
    assert(s6.0.nodes[len + 2] == n_tex);
    assert(n_tex.output_slots == crate::texture_node::spec_texture_output_slots());
    assert(spec_has_texture_input(g, MAIN_PASS@, COLOR_ATTACHMENT_SLOT@));
    crate::graph::lemma_find_node_push(s4.0.nodes, n_dep, DEPTH_TEXTURE_NODE@);
    assert(spec_find_node(s5.0.nodes, DEPTH_TEXTURE_NODE@) == Some(len + 3));
    assert(s7.0.nodes[len + 3] == n_dep);
    assert(n_dep.output_slots == crate::texture_node::spec_texture_output_slots());
    assert(spec_has_texture_input(g, MAIN_PASS@, DEPTH_SLOT@));
    // the window nodes and their texture outputs: steps 10 and 11 matched
    // them against the post pass's texture inputs
    lemma_input_pass_slots((ClearColor { red: 255, green: 0, blue: 255, alpha: 255 }));
    assert(n_pp.input_slots.len() == 2);
    crate::graph::lemma_find_slot_at(n_pp.input_slots, COLOR_ATTACHMENT_SLOT@, 0);
    crate::graph::lemma_find_slot_at(n_pp.input_slots, DEPTH_SLOT@, 1);
    assert(s9.0.nodes[len] == n_pp);
    let si = spec_find_node(g.nodes, PRIMARY_SWAP_CHAIN@)->0;
    crate::graph::lemma_find_node_characterization(g.nodes, PRIMARY_SWAP_CHAIN@);
    assert(spec_find_node(g.nodes, PRIMARY_SWAP_CHAIN@) is Some);
    assert(s9.0.nodes[si] == g.nodes[si]);
    assert(spec_has_texture_output(g, PRIMARY_SWAP_CHAIN@, TEXTURE_SLOT@));
    let di = spec_find_node(g.nodes, MAIN_DEPTH_TEXTURE@)->0;
    crate::graph::lemma_find_node_characterization(g.nodes, MAIN_DEPTH_TEXTURE@);
    assert(spec_find_node(g.nodes, MAIN_DEPTH_TEXTURE@) is Some);
    assert(s10.0.nodes[di] == g.nodes[di]);
    assert(spec_has_texture_output(g, MAIN_DEPTH_TEXTURE@, TEXTURE_SLOT@));
    // step 12 found the UI pass
    assert(g.has_node(UI_PASS@));
}

/// Wiring is deterministic and node identity is by name: after one
/// successful build, building the very same chain again fails at its first
/// step with the duplicate-name error for the post pass, and the graph is
/// left exactly as the first build left it.
pub proof fn lemma_build_chain_twice(g: GraphView)
    requires
        g.wf(),
        spec_build_chain(g).1 is Ok,
    ensures
        ({
            let g1 = spec_build_chain(g).0;
            spec_build_chain(g1) == (
                g1,
                Err::<(), GraphErrorView>(GraphErrorView::NodeAlreadyExists(POST_PASS@)),
            )
        }),
{
    let s1 = spec_add_node(g, POST_PASS@, spec_post_pass_data());
    let s2 = seq_then(
        s1,
        spec_add_node(s1.0, POST_PASS_CAMERA@, NodeDataView::Camera(POST_PASS_CAMERA@)),
    );
    let s3 = seq_then(s2, spec_add_node_edge(s2.0, POST_PASS_CAMERA@, POST_PASS@));
    let s4 = seq_then(
        s3,
        spec_add_node(s3.0, TEXTURE_NODE@, NodeDataView::Texture(spec_color_texture_node())),
    );
    let s5 = seq_then(
        s4,
        spec_add_node(s4.0, DEPTH_TEXTURE_NODE@, NodeDataView::Texture(spec_depth_texture_node())),
    );
    let g1 = spec_build_chain(g).0;
    assert(s1.1 is Ok && s2.1 is Ok && s3.1 is Ok && s4.1 is Ok && s5.1 is Ok);
    crate::graph::lemma_find_node_push(
        g.nodes,
        crate::graph::spec_new_node(POST_PASS@, spec_post_pass_data()),
        POST_PASS@,
    );
    assert(spec_find_node(s1.0.nodes, POST_PASS@) is Some);
    crate::graph::lemma_find_node_push(
        s1.0.nodes,
        crate::graph::spec_new_node(POST_PASS_CAMERA@, NodeDataView::Camera(POST_PASS_CAMERA@)),
        POST_PASS@,
    );
    assert(spec_find_node(s2.0.nodes, POST_PASS@) is Some);
    assert(s3.0.nodes == s2.0.nodes);
    crate::graph::lemma_find_node_push(
        s3.0.nodes,
        crate::graph::spec_new_node(TEXTURE_NODE@, NodeDataView::Texture(spec_color_texture_node())),
        POST_PASS@,
    );
    assert(spec_find_node(s4.0.nodes, POST_PASS@) is Some);
    crate::graph::lemma_find_node_push(
        s4.0.nodes,
        crate::graph::spec_new_node(
            DEPTH_TEXTURE_NODE@,
            NodeDataView::Texture(spec_depth_texture_node()),
        ),
        POST_PASS@,
    );
    assert(spec_find_node(s5.0.nodes, POST_PASS@) is Some);
    assert(g1.nodes == s5.0.nodes);
    assert(g1.has_node(POST_PASS@));
}

/// Hands the whole chain to a graph: the one-call entry point a program
/// uses at startup.
pub fn setup_render_graph(graph: &mut RenderGraph, active_cameras: &mut ActiveCameras) -> (r:
    Result<(), GraphError>)
    ensures
        (final(graph)@, result_view(r)) == spec_build_chain(old(graph)@),
        old(graph)@.wf() ==> final(graph)@.wf(),
        final(active_cameras)@ == (if spec_chain_registers_camera(old(graph)@) {
            spec_register_camera(old(active_cameras)@, POST_PASS_CAMERA@)
        } else {
            old(active_cameras)@
        }),
{
    graph.add_render_to_texture_chain(active_cameras)
}

} // verus!
