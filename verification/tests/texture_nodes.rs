use render_to_texture::resource::{
    RenderResourceId, RenderResources, ResourceType, SAMPLER_ASSET_INDEX, TEXTURE_ASSET_INDEX,
};
use render_to_texture::slot::ResourceSlots;
use render_to_texture::texture::{
    Extent3d, SamplerDescriptor, TextureDescriptor, TextureDimension, TextureFormat,
    TEXTURE_USAGE_OUTPUT_ATTACHMENT, TEXTURE_USAGE_SAMPLED,
};
use render_to_texture::texture_node::TextureNode;

fn square_descriptor(side: u32, format: TextureFormat) -> TextureDescriptor {
    TextureDescriptor {
        size: Extent3d::new(side, side, 1),
        mip_level_count: 1,
        sample_count: 1,
        dimension: TextureDimension::D2,
        format,
        usage: TEXTURE_USAGE_OUTPUT_ATTACHMENT | TEXTURE_USAGE_SAMPLED,
    }
}

#[test]
fn output_slot_is_single_texture() {
    let node = TextureNode::new(square_descriptor(512, TextureFormat::Bgra8UnormSrgb), None, None);
    let slots = node.output();
    assert_eq!(slots.len(), 1);
    assert_eq!(slots[0].name, "texture");
    assert_eq!(slots[0].resource_type, ResourceType::Texture);
}

#[test]
fn first_update_allocates_and_fills_slot() {
    let node = TextureNode::new(square_descriptor(512, TextureFormat::Bgra8UnormSrgb), None, None);
    let mut resources = RenderResources::new();
    let mut output = ResourceSlots::new_empty(1);
    node.update(&mut resources, &mut output);
    assert_eq!(resources.allocation_count(), 1);
    assert_eq!(resources.created[0], RenderResourceId::Texture(0));
    assert_eq!(output.get_value(0), Some(RenderResourceId::Texture(0)));
}

#[test]
fn update_is_idempotent() {
    let node = TextureNode::new(square_descriptor(512, TextureFormat::Bgra8UnormSrgb), None, None);
    let mut resources = RenderResources::new();
    let mut output = ResourceSlots::new_empty(1);
    for _ in 0..5 {
        node.update(&mut resources, &mut output);
    }
    assert_eq!(resources.allocation_count(), 1);
    assert_eq!(output.get_value(0), Some(RenderResourceId::Texture(0)));
}

#[test]
fn sampler_allocated_with_descriptor() {
    let node = TextureNode::new(
        square_descriptor(512, TextureFormat::Bgra8UnormSrgb),
        Some(SamplerDescriptor::default_descriptor()),
        None,
    );
    let mut resources = RenderResources::new();
    let mut output = ResourceSlots::new_empty(1);
    node.update(&mut resources, &mut output);
    assert_eq!(resources.allocation_count(), 2);
    assert_eq!(resources.created[0], RenderResourceId::Texture(0));
    assert_eq!(resources.created[1], RenderResourceId::Sampler(1));
    // no handle was given, so nothing is published
    assert!(resources.bindings.is_empty());
}

#[test]
fn handle_publishes_texture_and_sampler() {
    let node = TextureNode::new(
        square_descriptor(512, TextureFormat::Bgra8UnormSrgb),
        Some(SamplerDescriptor::default_descriptor()),
        Some(42),
    );
    let mut resources = RenderResources::new();
    let mut output = ResourceSlots::new_empty(1);
    node.update(&mut resources, &mut output);
    assert_eq!(resources.allocation_count(), 2);
    assert_eq!(
        resources.get_asset_resource_untyped(42, TEXTURE_ASSET_INDEX),
        Some(RenderResourceId::Texture(0))
    );
    assert_eq!(
        resources.get_asset_resource_untyped(42, SAMPLER_ASSET_INDEX),
        Some(RenderResourceId::Sampler(1))
    );
    assert_eq!(resources.get_asset_resource_untyped(7, TEXTURE_ASSET_INDEX), None);
}

#[test]
fn depth_format_node_allocates_one_texture() {
    let node = TextureNode::new(square_descriptor(512, TextureFormat::Depth32Float), None, None);
    let mut resources = RenderResources::new();
    let mut output = ResourceSlots::new_empty(1);
    node.update(&mut resources, &mut output);
    node.update(&mut resources, &mut output);
    assert_eq!(resources.allocation_count(), 1);
    assert!(node.texture_descriptor.format.is_depth());
}

#[test]
fn registry_last_write_wins() {
    let mut resources = RenderResources::new();
    resources.set_asset_resource_untyped(9, RenderResourceId::Texture(1), TEXTURE_ASSET_INDEX);
    resources.set_asset_resource_untyped(9, RenderResourceId::Texture(2), TEXTURE_ASSET_INDEX);
    assert_eq!(
        resources.get_asset_resource_untyped(9, TEXTURE_ASSET_INDEX),
        Some(RenderResourceId::Texture(2))
    );
}
