//! Colors and the caller-supplied draw state, together with the adapter's
//! fixed no-culling policy.

use vstd::prelude::*;

verus! {

/// Bit encoding of the scalar value one, as the GPU consumes it
/// (IEEE-754 single precision); the component value of opaque white.
pub const COMPONENT_ONE: u32 = 0x3F80_0000;

/// A color as four scalar components (red, green, blue, alpha), each held as
/// the opaque 32-bit encoding the GPU consumes.
#[derive(Clone, Copy, PartialEq, Eq, Structural, Debug)]
pub struct Color {
    pub r: u32,
    pub g: u32,
    pub b: u32,
    pub a: u32,
}

impl Color {
    /// The opaque-white tint both pipelines start with.
    pub open spec fn spec_opaque_white() -> Color {
        Color { r: COMPONENT_ONE, g: COMPONENT_ONE, b: COMPONENT_ONE, a: COMPONENT_ONE }
    }

    /// Returns the opaque-white tint both pipelines start with.
    pub fn opaque_white() -> (c: Color)
        ensures
            c == Color::spec_opaque_white(),
    {
        Color { r: COMPONENT_ONE, g: COMPONENT_ONE, b: COMPONENT_ONE, a: COMPONENT_ONE }
    }
}

/// Which faces of a triangle are culled before rasterization.
#[derive(Clone, Copy, PartialEq, Eq, Structural, Debug)]
pub enum CullFace {
    Nothing,
    Front,
    Back,
}

/// How a fragment's color is blended with the framebuffer.
#[derive(Clone, Copy, PartialEq, Eq, Structural, Debug)]
pub enum BlendMode {
    Alpha,
    Add,
    Multiply,
    Invert,
}

/// A stencil-based clipping test, with its reference value.
#[derive(Clone, Copy, PartialEq, Eq, Structural, Debug)]
pub enum StencilMode {
    /// Write the reference value into the stencil buffer.
    Clip { reference: u8 },
    /// Draw only where the stencil buffer holds the reference value.
    Inside { reference: u8 },
    /// Draw only where the stencil buffer does not hold the reference value.
    Outside { reference: u8 },
}

/// An axis-aligned scissor rectangle, in pixels.
#[derive(Clone, Copy, PartialEq, Eq, Structural, Debug)]
pub struct Scissor {
    pub x: u32,
    pub y: u32,
    pub width: u32,
    pub height: u32,
}

/// The caller-supplied per-draw render state: blending, stencil/clip test,
/// scissor, and a culling request that the adapter always overrides.
#[derive(Clone, Copy, PartialEq, Eq, Debug)]
pub struct DrawState {
    pub blend: Option<BlendMode>,
    pub stencil: Option<StencilMode>,
    pub scissor: Option<Scissor>,
    pub cull_face: CullFace,
}

impl DrawState {
    /// The state both pipelines are constructed with: no blending, no
    /// stencil test, no scissor, and culling disabled.
    pub open spec fn spec_default() -> DrawState {
        DrawState { blend: None, stencil: None, scissor: None, cull_face: CullFace::Nothing }
    }

    /// Returns the construction-time default draw state.
    pub fn initial() -> (s: DrawState)
        ensures
            s == DrawState::spec_default(),
    {
        DrawState { blend: None, stencil: None, scissor: None, cull_face: CullFace::Nothing }
    }
}

/// The state a pipeline actually stores when a caller supplies `s`: the same
/// state with culling forced off. Upstream shape decomposition guarantees no
/// particular triangle winding, so the adapter never lets culling through.
pub open spec fn spec_with_culling_disabled(s: DrawState) -> DrawState {
    DrawState { blend: s.blend, stencil: s.stencil, scissor: s.scissor, cull_face: CullFace::Nothing }
}

/// Copies a caller-supplied draw state, forcing culling off.
pub fn with_culling_disabled(s: &DrawState) -> (r: DrawState)
    ensures
        r == spec_with_culling_disabled(*s),
{
    DrawState { blend: s.blend, stencil: s.stencil, scissor: s.scissor, cull_face: CullFace::Nothing }
}

/// A pipeline's stored state after a sequence of caller overwrites: each
/// overwrite replaces the whole state with the requested one, culling forced
/// off.
pub open spec fn spec_apply_overwrites(initial: DrawState, requested: Seq<DrawState>) -> DrawState
    decreases requested.len(),
{
    if requested.len() == 0 {
        initial
    } else {
        spec_apply_overwrites(
            spec_with_culling_disabled(requested.first()),
            requested.subrange(1, requested.len() as int),
        )
    }
}

/// Law: culling stays disabled across any sequence of caller draw-state
/// overwrites — a pipeline that starts with culling off never has it back on,
/// whatever states callers request.
pub proof fn lemma_culling_stays_disabled(initial: DrawState, requested: Seq<DrawState>)
    requires
        initial.cull_face == CullFace::Nothing,
    ensures
        spec_apply_overwrites(initial, requested).cull_face == CullFace::Nothing,
    decreases requested.len(),
{
    if requested.len() > 0 {
        lemma_culling_stays_disabled(
            spec_with_culling_disabled(requested.first()),
            requested.subrange(1, requested.len() as int),
        );
    }
}

} // verus!
