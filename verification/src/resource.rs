//! Resource ids and the graphics resource manager.
//!
//! The resource manager hands out texture and sampler ids and keeps the
//! handle-to-resource registry that materials use to resolve a stable asset
//! handle to the id of a freshly created GPU resource.  Every allocation is
//! recorded in order, so callers can state exactly how many resources a step
//! creates.

use vstd::prelude::*;

verus! {

/// Registry index under which a texture resource is published for a handle.
pub const TEXTURE_ASSET_INDEX: u64 = 0;

/// Registry index under which a sampler resource is published for a handle.
pub const SAMPLER_ASSET_INDEX: u64 = 1;

/// The kind of resource a slot carries.
#[derive(Clone, Copy, Debug, PartialEq, Eq, Structural)]
pub enum ResourceType {
    Buffer,
    Texture,
    Sampler,
}

/// The id of an allocated GPU resource, tagged with its kind.
#[derive(Clone, Copy, Debug, PartialEq, Eq, Structural)]
pub enum RenderResourceId {
    Buffer(u64),
    Texture(u64),
    Sampler(u64),
}

/// One entry of the handle-to-resource registry.
#[derive(Clone, Copy, Debug, PartialEq, Eq, Structural)]
pub struct AssetBinding {
    /// The externally visible asset handle.
    pub handle: u64,
    /// The registry index (texture or sampler) the resource is published under.
    pub index: u64,
    /// The resource the handle resolves to at that index.
    pub resource: RenderResourceId,
}

/// The mathematical state of a resource manager: every allocation in order,
/// and every registry entry in the order it was published.
pub ghost struct ResourcesView {
    pub created: Seq<RenderResourceId>,
    pub bindings: Seq<AssetBinding>,
}

/// The graphics resource manager: descriptor in, resource id out.
///
/// Ids are handed out in allocation order, so the id of the next allocation
/// is always the number of resources created so far.
pub struct RenderResources {
    /// Every resource created so far, in allocation order.
    pub created: Vec<RenderResourceId>,
    /// The handle-to-resource registry, in publication order.
    pub bindings: Vec<AssetBinding>,
}

impl View for RenderResources {
    type V = ResourcesView;

    open spec fn view(&self) -> ResourcesView {
        ResourcesView { created: self.created@, bindings: self.bindings@ }
    }
}

/// The resource, if any, that `handle` resolves to under `index`: the most
/// recently published entry wins.
pub open spec fn spec_lookup_binding(
    bindings: Seq<AssetBinding>,
    handle: u64,
    index: u64,
) -> Option<RenderResourceId>
    decreases bindings.len(),
{
    if bindings.len() == 0 {
        None
    } else if bindings.last().handle == handle && bindings.last().index == index {
        Some(bindings.last().resource)
    } else {
        spec_lookup_binding(bindings.drop_last(), handle, index)
    }
}

impl RenderResources {
    /// A manager with nothing allocated and nothing published.
    pub fn new() -> (r: RenderResources)
        ensures
            r@.created == Seq::<RenderResourceId>::empty(),
            r@.bindings == Seq::<AssetBinding>::empty(),
    {
        RenderResources { created: Vec::new(), bindings: Vec::new() }
    }

    /// How many resources have been allocated so far.
    pub fn allocation_count(&self) -> (n: usize)
        ensures
            n == self@.created.len(),
    {
        self.created.len()
    }

    /// Allocates a texture and returns its id.  Exactly one resource is
    /// created and the registry is untouched.
    pub fn create_texture(&mut self, descriptor: crate::texture::TextureDescriptor) -> (id: u64)
        ensures
            id == old(self)@.created.len() as u64,
            final(self)@.created == old(self)@.created.push(RenderResourceId::Texture(id)),
            final(self)@.bindings == old(self)@.bindings,
    {
        let id = self.created.len() as u64;
        self.created.push(RenderResourceId::Texture(id));
        id
    }

    /// Allocates a sampler and returns its id.  Exactly one resource is
    /// created and the registry is untouched.
    pub fn create_sampler(&mut self, descriptor: &crate::texture::SamplerDescriptor) -> (id: u64)
        ensures
            id == old(self)@.created.len() as u64,
            final(self)@.created == old(self)@.created.push(RenderResourceId::Sampler(id)),
            final(self)@.bindings == old(self)@.bindings,
    {
        let id = self.created.len() as u64;
        self.created.push(RenderResourceId::Sampler(id));
        id
    }

    /// Publishes `resource` for `handle` under the registry index `index`,
    /// so that later lookups of the handle resolve to it.
    pub fn set_asset_resource_untyped(&mut self, handle: u64, resource: RenderResourceId, index: u64)
        ensures
            final(self)@.created == old(self)@.created,
            final(self)@.bindings == old(self)@.bindings.push(
                (AssetBinding { handle, index, resource }),
            ),
    {
        self.bindings.push(AssetBinding { handle, index, resource });
    }

    /// The resource `handle` currently resolves to under `index`, if any.
    pub fn get_asset_resource_untyped(&self, handle: u64, index: u64) -> (r: Option<
        RenderResourceId,
    >)
        ensures
            r == spec_lookup_binding(self@.bindings, handle, index),
    {
        let mut i: usize = self.bindings.len();
        proof {
            assert(self@.bindings.take(i as int) =~= self@.bindings);
        }
        while i > 0
            invariant
                i <= self.bindings@.len(),
                spec_lookup_binding(self@.bindings, handle, index) == spec_lookup_binding(
                    self@.bindings.take(i as int),
                    handle,
                    index,
                ),
            decreases i,
        {
            i = i - 1;
            let b = self.bindings[i];
            if b.handle == handle && b.index == index {
                proof {
                    assert(self@.bindings.take(i + 1).last() == b);
                }
                return Some(b.resource);
            }
            proof {
                assert(self@.bindings.take(i + 1).drop_last() =~= self@.bindings.take(i as int));
            }
        }
        proof {
            assert(self@.bindings.take(0) =~= Seq::<AssetBinding>::empty());
        }
        None
    }
}

} // verus!
