//! Typed resource slots.
//!
//! A node publishes resources through named, typed output slots and receives
//! them through named, typed input slots.  A slot's value is the id of an
//! allocated resource, or empty until one is produced.

use vstd::prelude::*;

use crate::resource::{RenderResourceId, ResourceType};

verus! {

/// The mathematical description of a slot: its name and the kind of resource
/// it carries.
pub ghost struct SlotInfoView {
    pub name: Seq<char>,
    pub resource_type: ResourceType,
}

/// The name and resource kind of one input or output slot of a node.
#[derive(Clone, Debug)]
pub struct ResourceSlotInfo {
    pub name: String,
    pub resource_type: ResourceType,
}

impl View for ResourceSlotInfo {
    type V = SlotInfoView;

    open spec fn view(&self) -> SlotInfoView {
        SlotInfoView { name: self.name@, resource_type: self.resource_type }
    }
}

/// The views of a list of slot descriptions.
pub open spec fn slot_infos_view(v: Seq<ResourceSlotInfo>) -> Seq<SlotInfoView> {
    v.map_values(|s: ResourceSlotInfo| s@)
}

/// The values of a node's slots: one entry per slot, empty until a resource
/// id is produced for it.
#[derive(Debug)]
pub struct ResourceSlots {
    pub values: Vec<Option<RenderResourceId>>,
}

impl View for ResourceSlots {
    type V = Seq<Option<RenderResourceId>>;

    open spec fn view(&self) -> Seq<Option<RenderResourceId>> {
        self.values@
    }
}

impl ResourceSlots {
    /// `n` slots, all empty.
    pub fn new_empty(n: usize) -> (r: ResourceSlots)
        ensures
            r@ == Seq::new(n as nat, |i: int| None::<RenderResourceId>),
    {
        let mut values: Vec<Option<RenderResourceId>> = Vec::new();
        let mut k: usize = 0;
        while k < n
            invariant
                k <= n,
                values@ == Seq::new(k as nat, |i: int| None::<RenderResourceId>),
            decreases n - k,
        {
            values.push(None);
            k = k + 1;
            proof {
                assert(values@ =~= Seq::new(k as nat, |i: int| None::<RenderResourceId>));
            }
        }
        ResourceSlots { values }
    }

    /// The number of slots.
    pub fn len(&self) -> (n: usize)
        ensures
            n == self@.len(),
    {
        self.values.len()
    }

    /// The value of slot `index`.
    pub fn get_value(&self, index: usize) -> (r: Option<RenderResourceId>)
        requires
            index < self@.len(),
        ensures
            r == self@[index as int],
    {
        self.values[index]
    }

    /// Overwrites slot `index` with `value`, which may be empty.
    pub fn write_value(&mut self, index: usize, value: Option<RenderResourceId>)
        requires
            index < old(self)@.len(),
        ensures
            final(self)@ == old(self)@.update(index as int, value),
    {
        self.values[index] = value;
    }

    /// Stores `resource` in slot `index`.
    pub fn set_value(&mut self, index: usize, resource: RenderResourceId)
        requires
            index < old(self)@.len(),
        ensures
            final(self)@ == old(self)@.update(index as int, Some(resource)),
    {
        self.values[index] = Some(resource);
    }
}

} // verus!
