//! The texture node: lazy, at-most-once texture and sampler allocation.
//!
//! A texture node holds a texture descriptor, an optional sampler descriptor
//! and an optional externally visible handle.  It exposes one output slot of
//! type texture.  The first update with an empty output slot allocates the
//! texture (and the sampler, if a descriptor for one is present), publishes
//! the ids under the handle if one was given, and stores the texture id in
//! the slot.  Every later update finds the slot filled and does nothing:
//! the node's only state transition is unallocated to allocated, and it is
//! terminal.

use vstd::prelude::*;

use crate::resource::{
    AssetBinding, RenderResourceId, RenderResources, ResourceType, ResourcesView,
    SAMPLER_ASSET_INDEX, TEXTURE_ASSET_INDEX,
};
use crate::slot::{slot_infos_view, ResourceSlotInfo, ResourceSlots, SlotInfoView};
use crate::texture::{SamplerDescriptor, TextureDescriptor};

verus! {

/// The handle under which the chain's offscreen color texture is published,
/// so materials can reference it.
pub const RENDER_TEXTURE_HANDLE: u64 = 13378939762009864029;

/// The name of the chain's color texture node.
pub const TEXTURE_NODE: &'static str = "texure_node";

/// The name of the chain's depth texture node.
pub const DEPTH_TEXTURE_NODE: &'static str = "depth_texure_node";

/// The name of a texture node's single output slot.
pub const TEXTURE_SLOT: &'static str = "texture";

/// A node that allocates a texture (and optionally a sampler) from its
/// descriptors, exactly once, lazily on first update.
#[derive(Clone, Copy, Debug)]
pub struct TextureNode {
    pub texture_descriptor: TextureDescriptor,
    pub sampler_descriptor: Option<SamplerDescriptor>,
    pub handle: Option<u64>,
}

/// The single output slot of a texture node: `texture`, of type texture.
pub open spec fn spec_texture_output_slots() -> Seq<SlotInfoView> {
    seq![(SlotInfoView { name: TEXTURE_SLOT@, resource_type: ResourceType::Texture })]
}

/// What one update step does, as a function from node, resource-manager
/// state and output-slot state to the next states.
///
/// With the first slot filled (or no slot at all) the step changes nothing.
/// With it empty, the step allocates the texture, then the sampler if a
/// descriptor for one is present, publishes the ids under the handle if one
/// was given, and fills the slot with the texture id.
pub open spec fn spec_update_step(
    node: TextureNode,
    res: ResourcesView,
    out: Seq<Option<RenderResourceId>>,
) -> (ResourcesView, Seq<Option<RenderResourceId>>) {
    if out.len() == 0 || !(out[0] is None) {
        (res, out)
    } else {
        let texture = RenderResourceId::Texture(res.created.len() as u64);
        let sampler = RenderResourceId::Sampler((res.created.len() + 1) as u64);
        let created = if node.sampler_descriptor is Some {
            res.created.push(texture).push(sampler)
        } else {
            res.created.push(texture)
        };
        let bindings = match node.handle {
            Some(h) => {
                let with_texture = res.bindings.push(
                    (AssetBinding { handle: h, index: TEXTURE_ASSET_INDEX, resource: texture }),
                );
                if node.sampler_descriptor is Some {
                    with_texture.push(
                        (AssetBinding { handle: h, index: SAMPLER_ASSET_INDEX, resource: sampler }),
                    )
                } else {
                    with_texture
                }
            },
            None => res.bindings,
        };
        (ResourcesView { created, bindings }, out.update(0, Some(texture)))
    }
}

impl TextureNode {
    /// A node that will allocate from these descriptors and publish under
    /// this handle.
    pub fn new(
        texture_descriptor: TextureDescriptor,
        sampler_descriptor: Option<SamplerDescriptor>,
        handle: Option<u64>,
    ) -> (r: TextureNode)
        ensures
            r == (TextureNode { texture_descriptor, sampler_descriptor, handle }),
    {
        TextureNode { texture_descriptor, sampler_descriptor, handle }
    }

    /// The node's output slots: one texture slot.
    pub fn output(&self) -> (r: Vec<ResourceSlotInfo>)
        ensures
            slot_infos_view(r@) == spec_texture_output_slots(),
    {
        let mut out: Vec<ResourceSlotInfo> = Vec::new();
        out.push(
            ResourceSlotInfo { name: TEXTURE_SLOT.to_owned(), resource_type: ResourceType::Texture },
        );
        proof {
            assert(slot_infos_view(out@) =~= spec_texture_output_slots());
        }
        out
    }

    /// One update step.  Allocates and fills the output slot if it is still
    /// empty, and does nothing otherwise; afterwards the slot is never empty.
    pub fn update(&self, render_context: &mut RenderResources, output: &mut ResourceSlots)
        requires
            old(output)@.len() >= 1,
        ensures
            (final(render_context)@, final(output)@) == spec_update_step(
                *self,
                old(render_context)@,
                old(output)@,
            ),
            final(output)@.len() == old(output)@.len(),
            !(final(output)@[0] is None),
    {
        let existing = output.get_value(0);
        if existing.is_none() {
            let texture_id = render_context.create_texture(self.texture_descriptor);
            if let Some(handle) = self.handle {
                render_context.set_asset_resource_untyped(
                    handle,
                    RenderResourceId::Texture(texture_id),
                    TEXTURE_ASSET_INDEX,
                );
            }
            if let Some(sampler_descriptor) = self.sampler_descriptor {
                let sampler_id = render_context.create_sampler(&sampler_descriptor);
                if let Some(handle) = self.handle {
                    render_context.set_asset_resource_untyped(
                        handle,
                        RenderResourceId::Sampler(sampler_id),
                        SAMPLER_ASSET_INDEX,
                    );
                }
            }
            output.set_value(0, RenderResourceId::Texture(texture_id));
            proof {
                let (eres, eout) = spec_update_step(*self, old(render_context)@, old(output)@);
                assert(render_context@.created =~= eres.created);
                assert(render_context@.bindings =~= eres.bindings);
                assert(output@ =~= eout);
            }
        }
    }
}

/// Updating is idempotent: a second step from the state a first step leaves
/// behind changes nothing, whatever the node's descriptors and handle.
pub proof fn lemma_update_step_idempotent(
    node: TextureNode,
    res: ResourcesView,
    out: Seq<Option<RenderResourceId>>,
)
    requires
        out.len() >= 1,
    ensures
        ({
            let (res1, out1) = spec_update_step(node, res, out);
            spec_update_step(node, res1, out1) == (res1, out1)
        }),
{
}

/// The first update from an empty slot performs the node's allocations:
/// the texture, then the sampler exactly when a sampler descriptor is
/// present, and nothing else; the slot is left holding the texture's id.
pub proof fn lemma_update_step_allocates_once(
    node: TextureNode,
    res: ResourcesView,
    out: Seq<Option<RenderResourceId>>,
)
    requires
        out.len() >= 1,
        out[0] is None,
    ensures
        ({
            let (res1, out1) = spec_update_step(node, res, out);
            let texture = RenderResourceId::Texture(res.created.len() as u64);
            &&& out1 == out.update(0, Some(texture))
            &&& res1.created.len() == res.created.len() + (if node.sampler_descriptor is Some {
                2int
            } else {
                1int
            })
        }),
{
}

/// `n` update steps in a row from the same node.
pub open spec fn spec_update_iter(
    node: TextureNode,
    res: ResourcesView,
    out: Seq<Option<RenderResourceId>>,
    n: nat,
) -> (ResourcesView, Seq<Option<RenderResourceId>>)
    decreases n,
{
    if n == 0 {
        (res, out)
    } else {
        let (res1, out1) = spec_update_iter(node, res, out, (n - 1) as nat);
        spec_update_step(node, res1, out1)
    }
}

/// Invoking the update step any number of times, at least once, has exactly
/// the effect of invoking it once: only the first step allocates, and the
/// output slot keeps the value the first step gave it.
pub proof fn lemma_update_iter_collapses(
    node: TextureNode,
    res: ResourcesView,
    out: Seq<Option<RenderResourceId>>,
    n: nat,
)
    requires
        out.len() >= 1,
        n >= 1,
    ensures
        spec_update_iter(node, res, out, n) == spec_update_step(node, res, out),
    decreases n,
{
    if n == 1 {
        assert(spec_update_iter(node, res, out, 0) == (res, out));
    } else {
        lemma_update_iter_collapses(node, res, out, (n - 1) as nat);
        lemma_update_step_idempotent(node, res, out);
    }
}

} // verus!
