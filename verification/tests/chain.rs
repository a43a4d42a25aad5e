use render_to_texture::camera::ActiveCameras;
use render_to_texture::graph::{GraphError, NodeData, RenderGraph};
use render_to_texture::pass::ClearColor;
use render_to_texture::render_to_texture::{
    base_render_graph, input_pass_descriptor, setup_render_graph, RenderToTextureGraphBuilder,
    DEPTH_SLOT, MAIN_PASS, POST_PASS, POST_PASS_CAMERA,
};
use render_to_texture::pass::PassNodeData;
use render_to_texture::resource::{RenderResourceId, RenderResources};
use render_to_texture::texture::{
    Extent3d, TextureDescriptor, TextureDimension, TextureFormat, TEXTURE_USAGE_OUTPUT_ATTACHMENT,
    TEXTURE_USAGE_SAMPLED,
};
use render_to_texture::texture_node::{TextureNode, DEPTH_TEXTURE_NODE, TEXTURE_NODE};

fn square_texture_node(side: u32, format: TextureFormat) -> NodeData {
    NodeData::Texture(TextureNode::new(
        TextureDescriptor {
            size: Extent3d::new(side, side, 1),
            mip_level_count: 1,
            sample_count: 1,
            dimension: TextureDimension::D2,
            format,
            usage: TEXTURE_USAGE_OUTPUT_ATTACHMENT | TEXTURE_USAGE_SAMPLED,
        },
        None,
        None,
    ))
}

#[test]
fn build_chain_on_base_graph_succeeds() {
    let mut g = base_render_graph();
    let mut cameras = ActiveCameras::new();
    assert!(setup_render_graph(&mut g, &mut cameras).is_ok());
    assert_eq!(g.nodes.len(), 8);
    assert!(g.find_node(POST_PASS).is_some());
    assert!(g.find_node(POST_PASS_CAMERA).is_some());
    assert!(g.find_node(TEXTURE_NODE).is_some());
    assert!(g.find_node(DEPTH_TEXTURE_NODE).is_some());
    assert!(cameras.contains(POST_PASS_CAMERA));
    assert_eq!(g.node_edges.len(), 4);
    assert_eq!(g.slot_edges.len(), 4);
}

#[test]
fn build_chain_twice_fails_with_duplicate_name() {
    let mut g = base_render_graph();
    let mut cameras = ActiveCameras::new();
    assert!(setup_render_graph(&mut g, &mut cameras).is_ok());
    let nodes_after_first = g.nodes.len();
    let second = setup_render_graph(&mut g, &mut cameras);
    assert!(matches!(second, Err(GraphError::NodeAlreadyExists(n)) if n == POST_PASS));
    assert_eq!(g.nodes.len(), nodes_after_first);
}

#[test]
fn build_chain_through_trait_method() {
    let mut g = base_render_graph();
    let mut cameras = ActiveCameras::new();
    assert!(g.add_render_to_texture_graph(&mut cameras).is_ok());
    assert!(g.find_node(POST_PASS).is_some());
}

#[test]
fn end_to_end_two_allocations() {
    // camera node, 512x512 color texture node, 512x512 depth texture node,
    // and a pass with one camera and two attachment slots
    let mut g = RenderGraph::new();
    assert!(g.add_node("camera", NodeData::Camera("camera".to_string())).is_ok());
    assert!(g
        .add_node("color", square_texture_node(512, TextureFormat::Bgra8UnormSrgb))
        .is_ok());
    assert!(g
        .add_node("depth_target", square_texture_node(512, TextureFormat::Depth32Float))
        .is_ok());
    let mut pass = PassNodeData::new(input_pass_descriptor(ClearColor {
        red: 0,
        green: 0,
        blue: 0,
        alpha: 255,
    }));
    pass.add_camera("camera");
    assert!(g.add_node("pass", NodeData::Pass(pass)).is_ok());
    assert!(g.add_node_edge("camera", "pass").is_ok());
    assert!(g.add_slot_edge("color", "texture", "pass", "color_attachment").is_ok());
    assert!(g.add_slot_edge("depth_target", "texture", "pass", "depth").is_ok());

    let mut resources = RenderResources::new();
    g.execute(&mut resources);
    // exactly two GPU resources: one color texture, one depth texture
    assert_eq!(resources.allocation_count(), 2);
    let pass_index = g.find_node("pass").unwrap();
    assert!(g.nodes[pass_index].inputs.values[0].is_some());
    assert!(g.nodes[pass_index].inputs.values[1].is_some());

    // executing again allocates nothing further and keeps the attachments
    g.execute(&mut resources);
    assert_eq!(resources.allocation_count(), 2);
    assert!(g.nodes[pass_index].inputs.values[0].is_some());
    assert!(g.nodes[pass_index].inputs.values[1].is_some());
}

#[test]
fn executing_built_chain_feeds_main_pass() {
    let mut g = base_render_graph();
    let mut cameras = ActiveCameras::new();
    assert!(setup_render_graph(&mut g, &mut cameras).is_ok());
    let mut resources = RenderResources::new();
    g.execute(&mut resources);
    // the chain's color node allocates a texture and its sampler; the depth
    // node allocates one texture
    assert_eq!(resources.allocation_count(), 3);
    let main_index = g.find_node(MAIN_PASS).unwrap();
    let color_value = g.nodes[main_index].inputs.values[0];
    let depth_value = g.nodes[main_index].inputs.values[1];
    assert!(matches!(color_value, Some(RenderResourceId::Texture(_))));
    assert!(matches!(depth_value, Some(RenderResourceId::Texture(_))));
    // a second frame allocates nothing more
    g.execute(&mut resources);
    assert_eq!(resources.allocation_count(), 3);
}

#[test]
fn chain_wires_depth_slot_by_name() {
    let mut g = base_render_graph();
    let mut cameras = ActiveCameras::new();
    assert!(setup_render_graph(&mut g, &mut cameras).is_ok());
    let main_index = g.find_node(MAIN_PASS).unwrap();
    let depth_index = g.find_node(DEPTH_TEXTURE_NODE).unwrap();
    assert_eq!(g.nodes[main_index].input_slots[1].name, DEPTH_SLOT);
    assert!(g
        .slot_edges
        .iter()
        .any(|e| e.output_node == depth_index && e.input_node == main_index && e.input_index == 1));
}
