//! Texture and sampler descriptors.
//!
//! A descriptor is a plain value: dimensions, format and usage flags for a
//! texture, address and filter modes for a sampler.  It is immutable once
//! given to a texture node.

use vstd::prelude::*;

verus! {

/// Usage bit: the texture may be copied from.
pub const TEXTURE_USAGE_COPY_SRC: u32 = 1;

/// Usage bit: the texture may be copied to.
pub const TEXTURE_USAGE_COPY_DST: u32 = 2;

/// Usage bit: the texture may be sampled by a shader.
pub const TEXTURE_USAGE_SAMPLED: u32 = 4;

/// Usage bit: the texture may be used as storage.
pub const TEXTURE_USAGE_STORAGE: u32 = 8;

/// Usage bit: the texture may be rendered to.
pub const TEXTURE_USAGE_OUTPUT_ATTACHMENT: u32 = 16;

/// The extent of a texture in texels.
#[derive(Clone, Copy, Debug, PartialEq, Eq, Structural)]
pub struct Extent3d {
    pub width: u32,
    pub height: u32,
    pub depth: u32,
}

impl Extent3d {
    pub fn new(width: u32, height: u32, depth: u32) -> (r: Extent3d)
        ensures
            r == (Extent3d { width, height, depth }),
    {
        Extent3d { width, height, depth }
    }
}

/// The dimensionality of a texture.
#[derive(Clone, Copy, Debug, PartialEq, Eq, Structural)]
pub enum TextureDimension {
    D1,
    D2,
    D3,
}

/// The texel format of a texture.
#[derive(Clone, Copy, Debug, PartialEq, Eq, Structural)]
pub enum TextureFormat {
    Rgba8UnormSrgb,
    Bgra8UnormSrgb,
    Depth32Float,
}

impl TextureFormat {
    /// The default color format of render targets.
    pub fn default_format() -> (r: TextureFormat)
        ensures
            r == TextureFormat::Bgra8UnormSrgb,
    {
        TextureFormat::Bgra8UnormSrgb
    }

    /// Whether this is a depth format rather than a color format.
    pub open spec fn spec_is_depth(self) -> bool {
        self is Depth32Float
    }

    /// Whether this is a depth format rather than a color format.
    pub fn is_depth(&self) -> (r: bool)
        ensures
            r == self.spec_is_depth(),
    {
        match self {
            TextureFormat::Depth32Float => true,
            _ => false,
        }
    }
}

/// Describes a texture to allocate: dimensions, format and usage flags.
#[derive(Clone, Copy, Debug, PartialEq, Eq, Structural)]
pub struct TextureDescriptor {
    pub size: Extent3d,
    pub mip_level_count: u32,
    pub sample_count: u32,
    pub dimension: TextureDimension,
    pub format: TextureFormat,
    pub usage: u32,
}

/// How sampling outside a texture's bounds behaves.
#[derive(Clone, Copy, Debug, PartialEq, Eq, Structural)]
pub enum AddressMode {
    ClampToEdge,
    Repeat,
    MirrorRepeat,
}

/// How texels are filtered when a texture is sampled.
#[derive(Clone, Copy, Debug, PartialEq, Eq, Structural)]
pub enum FilterMode {
    Nearest,
    Linear,
}

/// Describes a sampler to allocate alongside a texture.
#[derive(Clone, Copy, Debug, PartialEq, Eq, Structural)]
pub struct SamplerDescriptor {
    pub address_mode_u: AddressMode,
    pub address_mode_v: AddressMode,
    pub address_mode_w: AddressMode,
    pub mag_filter: FilterMode,
    pub min_filter: FilterMode,
    pub mipmap_filter: FilterMode,
}

/// The default sampler: clamped addressing, nearest magnification, linear
/// minification.
pub open spec fn spec_default_sampler() -> SamplerDescriptor {
    SamplerDescriptor {
        address_mode_u: AddressMode::ClampToEdge,
        address_mode_v: AddressMode::ClampToEdge,
        address_mode_w: AddressMode::ClampToEdge,
        mag_filter: FilterMode::Nearest,
        min_filter: FilterMode::Linear,
        mipmap_filter: FilterMode::Nearest,
    }
}

impl SamplerDescriptor {
    /// The default sampler: clamped addressing, nearest magnification,
    /// linear minification.
    pub fn default_descriptor() -> (r: SamplerDescriptor)
        ensures
            r == spec_default_sampler(),
    {
        SamplerDescriptor {
            address_mode_u: AddressMode::ClampToEdge,
            address_mode_v: AddressMode::ClampToEdge,
            address_mode_w: AddressMode::ClampToEdge,
            mag_filter: FilterMode::Nearest,
            min_filter: FilterMode::Linear,
            mipmap_filter: FilterMode::Nearest,
        }
    }
}

} // verus!
