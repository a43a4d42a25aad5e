use render_to_texture::graph::{GraphError, NodeData, RenderGraph};
use render_to_texture::pass::ClearColor;
use render_to_texture::render_to_texture::input_pass_descriptor;
use render_to_texture::pass::PassNodeData;
use render_to_texture::resource::ResourceType;
use render_to_texture::slot::ResourceSlotInfo;
use render_to_texture::texture::{
    Extent3d, TextureDescriptor, TextureDimension, TextureFormat, TEXTURE_USAGE_OUTPUT_ATTACHMENT,
    TEXTURE_USAGE_SAMPLED,
};
use render_to_texture::texture_node::TextureNode;

fn texture_node(side: u32) -> NodeData {
    NodeData::Texture(TextureNode::new(
        TextureDescriptor {
            size: Extent3d::new(side, side, 1),
            mip_level_count: 1,
            sample_count: 1,
            dimension: TextureDimension::D2,
            format: TextureFormat::Bgra8UnormSrgb,
            usage: TEXTURE_USAGE_OUTPUT_ATTACHMENT | TEXTURE_USAGE_SAMPLED,
        },
        None,
        None,
    ))
}

fn pass_node() -> NodeData {
    NodeData::Pass(PassNodeData::new(input_pass_descriptor(ClearColor {
        red: 0,
        green: 0,
        blue: 0,
        alpha: 255,
    })))
}

#[test]
fn duplicate_node_name_rejected() {
    let mut g = RenderGraph::new();
    assert!(g.add_node("stage", NodeData::Camera("cam".to_string())).is_ok());
    let second = g.add_node("stage", NodeData::Camera("cam".to_string()));
    assert!(matches!(second, Err(GraphError::NodeAlreadyExists(n)) if n == "stage"));
    assert_eq!(g.nodes.len(), 1);
}

#[test]
fn node_edge_requires_both_nodes() {
    let mut g = RenderGraph::new();
    assert!(g.add_node("a", NodeData::Camera("cam".to_string())).is_ok());
    let r = g.add_node_edge("a", "missing");
    assert!(matches!(r, Err(GraphError::NodeDoesNotExist(n)) if n == "missing"));
    let r = g.add_node_edge("missing", "a");
    assert!(matches!(r, Err(GraphError::NodeDoesNotExist(n)) if n == "missing"));
}

#[test]
fn node_edge_duplicate_rejected() {
    let mut g = RenderGraph::new();
    assert!(g.add_node("a", NodeData::Camera("one".to_string())).is_ok());
    assert!(g.add_node("b", NodeData::Camera("two".to_string())).is_ok());
    assert!(g.add_node_edge("a", "b").is_ok());
    assert!(matches!(g.add_node_edge("a", "b"), Err(GraphError::EdgeAlreadyExists)));
    assert_eq!(g.node_edges.len(), 1);
}

#[test]
fn slot_edge_type_mismatch_rejected() {
    let mut g = RenderGraph::new();
    assert!(g.add_node("tex", texture_node(512)).is_ok());
    // an engine node whose input slot carries buffers, not textures
    let sink = NodeData::Engine {
        inputs: vec![ResourceSlotInfo {
            name: "data".to_string(),
            resource_type: ResourceType::Buffer,
        }],
        outputs: Vec::new(),
    };
    assert!(g.add_node("sink", sink).is_ok());
    let r = g.add_slot_edge("tex", "texture", "sink", "data");
    assert!(matches!(r, Err(GraphError::MismatchedSlotType(n)) if n == "data"));
    assert_eq!(g.slot_edges.len(), 0);
}

#[test]
fn slot_edge_missing_slots_reported() {
    let mut g = RenderGraph::new();
    assert!(g.add_node("tex", texture_node(512)).is_ok());
    assert!(g.add_node("pass", pass_node()).is_ok());
    let r = g.add_slot_edge("tex", "nope", "pass", "color_attachment");
    assert!(matches!(r, Err(GraphError::OutputSlotDoesNotExist(n)) if n == "nope"));
    let r = g.add_slot_edge("tex", "texture", "pass", "nope");
    assert!(matches!(r, Err(GraphError::InputSlotDoesNotExist(n)) if n == "nope"));
}

#[test]
fn slot_edge_between_matching_slots_recorded() {
    let mut g = RenderGraph::new();
    assert!(g.add_node("tex", texture_node(512)).is_ok());
    assert!(g.add_node("pass", pass_node()).is_ok());
    assert!(g.add_slot_edge("tex", "texture", "pass", "color_attachment").is_ok());
    assert_eq!(g.slot_edges.len(), 1);
    assert_eq!(g.slot_edges[0].output_node, 0);
    assert_eq!(g.slot_edges[0].output_index, 0);
    assert_eq!(g.slot_edges[0].input_node, 1);
    assert_eq!(g.slot_edges[0].input_index, 0);
}

#[test]
fn slot_edge_duplicate_rejected() {
    let mut g = RenderGraph::new();
    assert!(g.add_node("tex", texture_node(512)).is_ok());
    assert!(g.add_node("pass", pass_node()).is_ok());
    assert!(g.add_slot_edge("tex", "texture", "pass", "color_attachment").is_ok());
    let r = g.add_slot_edge("tex", "texture", "pass", "color_attachment");
    assert!(matches!(r, Err(GraphError::EdgeAlreadyExists)));
    assert_eq!(g.slot_edges.len(), 1);
}

#[test]
fn pass_node_exposes_attachment_inputs() {
    let mut g = RenderGraph::new();
    assert!(g.add_node("pass", pass_node()).is_ok());
    let node = &g.nodes[0];
    assert_eq!(node.input_slots.len(), 2);
    assert_eq!(node.input_slots[0].name, "color_attachment");
    assert_eq!(node.input_slots[0].resource_type, ResourceType::Texture);
    assert_eq!(node.input_slots[1].name, "depth");
    assert_eq!(node.input_slots[1].resource_type, ResourceType::Texture);
    assert_eq!(node.inputs.values.len(), 2);
    assert_eq!(node.outputs.values.len(), 0);
}
