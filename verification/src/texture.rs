//! What the adapter reads of externally owned textures, sampler settings, and
//! the placeholder texture the textured pipeline is constructed with.

use vstd::prelude::*;

verus! {

/// The channel layout of a texture's pixel format.
#[derive(Clone, Copy, PartialEq, Eq, Structural, Debug)]
pub enum TextureComponents {
    R,
    Rg,
    Rgb,
    Rgba,
    Depth,
    Stencil,
}

/// What the adapter reads of an externally owned texture: an identity by
/// which the host resolves the real GPU handle, the pixel dimensions, and the
/// pixel format's channel layout. The pixel data itself stays with the owner.
#[derive(Clone, Copy, PartialEq, Eq, Structural, Debug)]
pub struct Texture {
    pub id: u64,
    pub width: u32,
    pub height: u32,
    pub components: TextureComponents,
}

impl Texture {
    /// A texture has an alpha channel exactly when its format is the
    /// four-component RGBA layout.
    pub open spec fn spec_has_alpha(self) -> bool {
        self.components == TextureComponents::Rgba
    }
}

/// How a sampler filters between texels and mipmap levels.
#[derive(Clone, Copy, PartialEq, Eq, Structural, Debug)]
pub enum FilterMethod {
    Nearest,
    Bilinear,
    Trilinear,
}

/// How a sampler treats coordinates outside the unit square.
#[derive(Clone, Copy, PartialEq, Eq, Structural, Debug)]
pub enum WrapMode {
    Tile,
    Mirror,
    Clamp,
}

/// The sampler settings of the textured pipeline. They are fixed at
/// construction; textured draws swap only the texture image.
#[derive(Clone, Copy, PartialEq, Eq, Structural, Debug)]
pub struct SamplerInfo {
    pub filter: FilterMethod,
    pub wrap: WrapMode,
}

impl SamplerInfo {
    /// The fixed sampler of the textured pipeline: trilinear filtering with
    /// clamp-to-edge wrapping.
    pub open spec fn spec_fixed() -> SamplerInfo {
        SamplerInfo { filter: FilterMethod::Trilinear, wrap: WrapMode::Clamp }
    }

    /// Returns the fixed sampler settings of the textured pipeline.
    pub fn fixed() -> (s: SamplerInfo)
        ensures
            s == SamplerInfo::spec_fixed(),
    {
        SamplerInfo { filter: FilterMethod::Trilinear, wrap: WrapMode::Clamp }
    }
}

/// The 1-by-1 RGBA placeholder texture bound to the textured pipeline at
/// construction, so that pipeline is drawable before any caller texture is
/// supplied. It takes the reserved identity zero.
pub open spec fn spec_placeholder_texture() -> Texture {
    Texture { id: 0, width: 1, height: 1, components: TextureComponents::Rgba }
}

/// Returns the placeholder texture bound at construction.
pub fn placeholder_texture() -> (t: Texture)
    ensures
        t == spec_placeholder_texture(),
{
    Texture { id: 0, width: 1, height: 1, components: TextureComponents::Rgba }
}

/// The fixed pixel bytes of the placeholder texture's single RGBA texel.
pub open spec fn spec_placeholder_pixel() -> Seq<u8> {
    seq![0x20u8, 0xA0u8, 0xC0u8, 0x00u8]
}

/// Returns the raw bytes the host uploads into the placeholder texture.
pub fn placeholder_pixel_bytes() -> (r: Vec<u8>)
    ensures
        r@ == spec_placeholder_pixel(),
{
    let mut v: Vec<u8> = Vec::new();
    v.push(0x20u8);
    v.push(0xA0u8);
    v.push(0xC0u8);
    v.push(0x00u8);
    proof {
        assert(v@ =~= spec_placeholder_pixel());
    }
    v
}

} // verus!
