//! Render pass descriptors.
//!
//! A pass node holds a list of color attachment descriptors, an optional
//! depth-stencil attachment descriptor and the names of the cameras that
//! drive it.  An attachment that names an input slot becomes a typed input
//! of the pass node when the node is added to a graph.

use vstd::prelude::*;

use crate::resource::ResourceType;
use crate::slot::SlotInfoView;

verus! {

/// Where an attachment's texture comes from: an input slot of the pass node,
/// filled by a slot edge, or a fixed resource id.
#[derive(Clone, Debug)]
pub enum TextureAttachment {
    /// The texture arrives through an input slot with this name.
    Input(String),
    /// The texture is this already-allocated resource.
    Id(u64),
}

/// The mathematical form of a `TextureAttachment`.
pub ghost enum TextureAttachmentView {
    Input(Seq<char>),
    Id(u64),
}

impl View for TextureAttachment {
    type V = TextureAttachmentView;

    open spec fn view(&self) -> TextureAttachmentView {
        match self {
            TextureAttachment::Input(name) => TextureAttachmentView::Input(name@),
            TextureAttachment::Id(id) => TextureAttachmentView::Id(*id),
        }
    }
}

/// What a pass does with an attachment when it begins: keep what is there,
/// or clear it to a fixed value.
#[derive(Clone, Copy, Debug, PartialEq, Eq, Structural)]
pub enum LoadOp<V> {
    Clear(V),
    Load,
}

/// Load behaviour and whether the result is stored when the pass ends.
#[derive(Clone, Copy, Debug, PartialEq, Eq, Structural)]
pub struct Operations<V> {
    pub load: LoadOp<V>,
    pub store: bool,
}

/// A clear color with 8-bit channels.
#[derive(Clone, Copy, Debug, PartialEq, Eq, Structural)]
pub struct ClearColor {
    pub red: u8,
    pub green: u8,
    pub blue: u8,
    pub alpha: u8,
}

/// A depth value in thousandths of the unit range: 0 is the near plane,
/// 1000 the far plane.
pub type DepthValue = u32;

/// One color attachment of a pass.
#[derive(Clone, Debug)]
pub struct RenderPassColorAttachmentDescriptor {
    pub attachment: TextureAttachment,
    pub resolve_target: Option<TextureAttachment>,
    pub ops: Operations<ClearColor>,
}

/// The mathematical form of a color attachment descriptor.
pub ghost struct ColorAttachmentView {
    pub attachment: TextureAttachmentView,
    pub resolve_target: Option<TextureAttachmentView>,
    pub ops: Operations<ClearColor>,
}

impl View for RenderPassColorAttachmentDescriptor {
    type V = ColorAttachmentView;

    open spec fn view(&self) -> ColorAttachmentView {
        ColorAttachmentView {
            attachment: self.attachment@,
            resolve_target: match self.resolve_target {
                Some(t) => Some(t@),
                None => None,
            },
            ops: self.ops,
        }
    }
}

/// The depth-stencil attachment of a pass.
#[derive(Clone, Debug)]
pub struct RenderPassDepthStencilAttachmentDescriptor {
    pub attachment: TextureAttachment,
    pub depth_ops: Option<Operations<DepthValue>>,
    pub stencil_ops: Option<Operations<u32>>,
}

/// The mathematical form of a depth-stencil attachment descriptor.
pub ghost struct DepthStencilAttachmentView {
    pub attachment: TextureAttachmentView,
    pub depth_ops: Option<Operations<DepthValue>>,
    pub stencil_ops: Option<Operations<u32>>,
}

impl View for RenderPassDepthStencilAttachmentDescriptor {
    type V = DepthStencilAttachmentView;

    open spec fn view(&self) -> DepthStencilAttachmentView {
        DepthStencilAttachmentView {
            attachment: self.attachment@,
            depth_ops: self.depth_ops,
            stencil_ops: self.stencil_ops,
        }
    }
}

/// Describes a render pass: its color attachments, its optional depth-stencil
/// attachment and its multisample count.
#[derive(Clone, Debug)]
pub struct PassDescriptor {
    pub color_attachments: Vec<RenderPassColorAttachmentDescriptor>,
    pub depth_stencil_attachment: Option<RenderPassDepthStencilAttachmentDescriptor>,
    pub sample_count: u32,
}

/// The mathematical form of a pass descriptor.
pub ghost struct PassDescriptorView {
    pub color_attachments: Seq<ColorAttachmentView>,
    pub depth_stencil_attachment: Option<DepthStencilAttachmentView>,
    pub sample_count: u32,
}

impl View for PassDescriptor {
    type V = PassDescriptorView;

    open spec fn view(&self) -> PassDescriptorView {
        PassDescriptorView {
            color_attachments: self.color_attachments@.map_values(
                |a: RenderPassColorAttachmentDescriptor| a@,
            ),
            depth_stencil_attachment: match self.depth_stencil_attachment {
                Some(d) => Some(d@),
                None => None,
            },
            sample_count: self.sample_count,
        }
    }
}

/// The input slots the color attachments of a pass give rise to: one texture
/// slot per attachment that names an input, in attachment order.
pub open spec fn spec_color_input_slots(atts: Seq<ColorAttachmentView>) -> Seq<SlotInfoView>
    decreases atts.len(),
{
    if atts.len() == 0 {
        Seq::empty()
    } else {
        spec_color_input_slots(atts.drop_last()) + (match atts.last().attachment {
            TextureAttachmentView::Input(name) => seq![
                (SlotInfoView { name, resource_type: ResourceType::Texture }),
            ],
            TextureAttachmentView::Id(_) => Seq::empty(),
        })
    }
}

/// All input slots of a pass with this descriptor: the slots of its color
/// attachments, then the slot of its depth-stencil attachment if that names
/// an input.
pub open spec fn spec_pass_input_slots(d: PassDescriptorView) -> Seq<SlotInfoView> {
    spec_color_input_slots(d.color_attachments) + (match d.depth_stencil_attachment {
        Some(ds) => match ds.attachment {
            TextureAttachmentView::Input(name) => seq![
                (SlotInfoView { name, resource_type: ResourceType::Texture }),
            ],
            TextureAttachmentView::Id(_) => Seq::empty(),
        },
        None => Seq::empty(),
    })
}

/// A pass node before it is added to a graph: its descriptor and the names
/// of the cameras whose entities it draws.
#[derive(Clone, Debug)]
pub struct PassNodeData {
    pub descriptor: PassDescriptor,
    pub cameras: Vec<String>,
}

/// The mathematical form of a pass node.
pub ghost struct PassNodeView {
    pub descriptor: PassDescriptorView,
    pub cameras: Seq<Seq<char>>,
}

impl View for PassNodeData {
    type V = PassNodeView;

    open spec fn view(&self) -> PassNodeView {
        PassNodeView {
            descriptor: self.descriptor@,
            cameras: self.cameras@.map_values(|c: String| c@),
        }
    }
}

impl PassNodeData {
    /// A pass node with this descriptor and no cameras yet.
    pub fn new(descriptor: PassDescriptor) -> (r: PassNodeData)
        ensures
            r@.descriptor == descriptor@,
            r@.cameras == Seq::<Seq<char>>::empty(),
    {
        let r = PassNodeData { descriptor, cameras: Vec::new() };
        proof {
            assert(r@.cameras =~= Seq::<Seq<char>>::empty());
        }
        r
    }

    /// Registers a camera to drive this pass.
    pub fn add_camera(&mut self, name: &str)
        ensures
            final(self)@.descriptor == old(self)@.descriptor,
            final(self)@.cameras == old(self)@.cameras.push(name@),
    {
        self.cameras.push(name.to_owned());
        proof {
            assert(self@.cameras =~= old(self)@.cameras.push(name@));
        }
    }

    /// The input slots this pass node exposes, derived from the attachments
    /// of its descriptor that name an input.
    pub fn input_slots(&self) -> (r: Vec<crate::slot::ResourceSlotInfo>)
        ensures
            crate::slot::slot_infos_view(r@) == spec_pass_input_slots(self@.descriptor),
    {
        let mut out: Vec<crate::slot::ResourceSlotInfo> = Vec::new();
        let n = self.color_attachments_len();
        let ghost atts = self@.descriptor.color_attachments;
        proof {
            assert(atts.take(0) =~= Seq::<ColorAttachmentView>::empty());
            assert(crate::slot::slot_infos_view(out@) =~= spec_color_input_slots(atts.take(0)));
        }
        let mut i: usize = 0;
        while i < n
            invariant
                i <= n,
                n == atts.len(),
                atts == self@.descriptor.color_attachments,
                crate::slot::slot_infos_view(out@) == spec_color_input_slots(atts.take(i as int)),
            decreases n - i,
        {
            match &self.descriptor.color_attachments[i].attachment {
                TextureAttachment::Input(name) => {
                    out.push(
                        crate::slot::ResourceSlotInfo {
                            name: name.clone(),
                            resource_type: ResourceType::Texture,
                        },
                    );
                },
                TextureAttachment::Id(_) => {},
            }
            i = i + 1;
            proof {
                assert(atts.take(i as int).drop_last() =~= atts.take(i - 1));
                assert(atts.take(i as int).last() == atts[i - 1]);
                assert(crate::slot::slot_infos_view(out@) =~= spec_color_input_slots(
                    atts.take(i as int),
                ));
            }
        }
        proof {
            assert(atts.take(n as int) =~= atts);
        }
        match &self.descriptor.depth_stencil_attachment {
            Some(ds) => {
                match &ds.attachment {
                    TextureAttachment::Input(name) => {
                        out.push(
                            crate::slot::ResourceSlotInfo {
                                name: name.clone(),
                                resource_type: ResourceType::Texture,
                            },
                        );
                    },
                    TextureAttachment::Id(_) => {},
                }
            },
            None => {},
        }
        proof {
            assert(crate::slot::slot_infos_view(out@) =~= spec_pass_input_slots(self@.descriptor));
        }
        out
    }

    /// How many color attachments the descriptor holds.
    fn color_attachments_len(&self) -> (n: usize)
        ensures
            n == self@.descriptor.color_attachments.len(),
    {
        self.descriptor.color_attachments.len()
    }
}

} // verus!
