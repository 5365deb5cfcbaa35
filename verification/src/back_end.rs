//! The adapter core: persistent GPU resources, the per-frame drawing
//! session, and the two draw operations.
//!
//! [`Gfx2d`] owns the reusable vertex buffers and the two pipelines.
//! [`GfxGraphics`] is one drawing session against a target frame: each draw
//! call overwrites the chosen pipeline's render state and uniforms once,
//! then, per vertex batch, uploads into the shared buffers and submits one
//! draw command. Every effect on the adapter and on the command stream is
//! pinned by the `spec_draw_solid` / `spec_draw_textured` functions.

use vstd::prelude::*;

use crate::buffer::{spec_write_prefix, GpuBuffer, GpuBufferModel};
use crate::command::{Command, CommandModel, Renderer};
use crate::draw_state::{
    spec_with_culling_disabled, with_culling_disabled, Color, CullFace, DrawState,
};
use crate::shaders::{bundled_shader_source, spec_bundled_versions, spec_choose_version, Program};
use crate::texture::{
    placeholder_texture, spec_placeholder_texture, SamplerInfo, Texture, TextureComponents,
};

verus! {

/// Scalar components per position entry (two-dimensional positions).
pub const POS_COMPONENTS: usize = 2;

/// Scalar components per texture-coordinate entry.
pub const UV_COMPONENTS: usize = 2;

/// The most vertices one draw burst may hold: the fixed vertex count the
/// reusable buffers are sized for.
pub const BACK_END_MAX_VERTEX_COUNT: usize = 1024;

/// What construction reads of the GPU device: the highest shading-language
/// version its shading model supports.
#[derive(Clone, Copy, PartialEq, Eq, Structural, Debug)]
pub struct DeviceCaps {
    pub shader_model: u32,
}

/// Why construction was refused. Construction fails atomically: no partially
/// constructed adapter is ever returned.
#[derive(Clone, Copy, PartialEq, Eq, Structural, Debug)]
pub enum CreationError {
    /// The device's shading model supports none of the bundled shader
    /// variants.
    ShaderModelUnsupported,
}

/// Why a draw call was refused before submitting anything. Both refusals are
/// contract violations by the caller's vertex producer.
#[derive(Clone, Copy, PartialEq, Eq, Structural, Debug)]
pub enum DrawError {
    /// A textured batch pairs position and texture-coordinate sequences of
    /// different vertex counts.
    MismatchedVertexCounts,
    /// A batch holds more components than the reusable buffers can take.
    TooManyVertices,
}

/// The vertex range `[start, end)` a pipeline draws, interpreted as an
/// unindexed triangle list.
#[derive(Clone, Copy, PartialEq, Eq, Structural, Debug)]
pub struct Slice {
    pub start: usize,
    pub end: usize,
}

/// The solid-color pipeline: its linked program, mutable render state and
/// tint uniform, and the vertex range of the latest draw.
#[derive(Clone, Copy, PartialEq, Eq, Debug)]
pub struct Batch {
    pub program: Program,
    pub state: DrawState,
    pub color: Color,
    pub slice: Slice,
}

/// The textured pipeline: as [`Batch`], plus the bound texture and the
/// sampler fixed at construction.
#[derive(Clone, Copy, PartialEq, Eq, Debug)]
pub struct BatchUv {
    pub program: Program,
    pub state: DrawState,
    pub color: Color,
    pub texture: Texture,
    pub sampler: SamplerInfo,
    pub slice: Slice,
}

/// The persistent GPU resources for 2D drawing: the shared position buffer,
/// the texture-coordinate buffer, and the two pipelines.
pub struct Gfx2d {
    pub buffer_pos: GpuBuffer,
    pub buffer_uv: GpuBuffer,
    pub batch: Batch,
    pub batch_uv: BatchUv,
}

/// The mathematical view of a [`Gfx2d`].
pub struct Gfx2dModel {
    pub buffer_pos: GpuBufferModel,
    pub buffer_uv: GpuBufferModel,
    pub batch: Batch,
    pub batch_uv: BatchUv,
}

impl View for Gfx2d {
    type V = Gfx2dModel;

    open spec fn view(&self) -> Gfx2dModel {
        Gfx2dModel {
            buffer_pos: self.buffer_pos@,
            buffer_uv: self.buffer_uv@,
            batch: self.batch,
            batch_uv: self.batch_uv,
        }
    }
}

impl Gfx2dModel {
    /// Well-formedness: the buffers hold no more than the capacities
    /// construction fixed, and the no-culling policy is in force on both
    /// pipelines.
    pub open spec fn wf(self) -> bool {
        &&& self.buffer_pos.wf()
        &&& self.buffer_uv.wf()
        &&& self.buffer_pos.capacity == POS_COMPONENTS * BACK_END_MAX_VERTEX_COUNT
        &&& self.buffer_uv.capacity == UV_COMPONENTS * BACK_END_MAX_VERTEX_COUNT
        &&& self.batch.state.cull_face == CullFace::Nothing
        &&& self.batch_uv.state.cull_face == CullFace::Nothing
    }
}

/// The adapter state construction yields when it picks the shading-language
/// version `v`: empty buffers at their fixed capacities, default render
/// state with culling disabled, opaque-white tints, and the placeholder
/// texture with the fixed sampler on the textured pipeline.
pub open spec fn spec_new_gfx2d(v: u32) -> Gfx2dModel {
    Gfx2dModel {
        buffer_pos: GpuBufferModel {
            capacity: (POS_COMPONENTS * BACK_END_MAX_VERTEX_COUNT) as usize,
            contents: Seq::<u32>::empty(),
        },
        buffer_uv: GpuBufferModel {
            capacity: (UV_COMPONENTS * BACK_END_MAX_VERTEX_COUNT) as usize,
            contents: Seq::<u32>::empty(),
        },
        batch: Batch {
            program: Program { vertex_version: v, fragment_version: v },
            state: DrawState::spec_default(),
            color: Color::spec_opaque_white(),
            slice: Slice { start: 0, end: 0 },
        },
        batch_uv: BatchUv {
            program: Program { vertex_version: v, fragment_version: v },
            state: DrawState::spec_default(),
            color: Color::spec_opaque_white(),
            texture: spec_placeholder_texture(),
            sampler: SamplerInfo::spec_fixed(),
            slice: Slice { start: 0, end: 0 },
        },
    }
}

impl Gfx2d {
    /// Creates the adapter. Both programs are linked from the highest shader
    /// variant the device's shading model supports; the two vertex buffers
    /// are allocated at their fixed capacities; tints start opaque white;
    /// the textured pipeline starts with the placeholder texture and the
    /// fixed trilinear clamp-to-edge sampler; culling is disabled on both
    /// pipelines. When the device supports no bundled variant, construction
    /// fails atomically.
    pub fn new(device: &DeviceCaps) -> (r: Result<Gfx2d, CreationError>)
        ensures
            ({
                let chosen = spec_choose_version(spec_bundled_versions(), device.shader_model);
                match r {
                    Ok(g) => chosen is Some && g@ == spec_new_gfx2d(chosen.unwrap()) && g@.wf(),
                    Err(e) => chosen is None && e == CreationError::ShaderModelUnsupported,
                }
            }),
    {
        let shader_model = device.shader_model;

        let vertex = bundled_shader_source();
        let fragment = bundled_shader_source();
        let (vertex_version, fragment_version) = match (
            vertex.choose_version(shader_model),
            fragment.choose_version(shader_model),
        ) {
            (Some(v), Some(f)) => (v, f),
            _ => {
                return Err(CreationError::ShaderModelUnsupported);
            },
        };
        let program = Program { vertex_version, fragment_version };

        let vertex_uv = bundled_shader_source();
        let fragment_uv = bundled_shader_source();
        let (vertex_version_uv, fragment_version_uv) = match (
            vertex_uv.choose_version(shader_model),
            fragment_uv.choose_version(shader_model),
        ) {
            (Some(v), Some(f)) => (v, f),
            _ => {
                return Err(CreationError::ShaderModelUnsupported);
            },
        };
        let program_uv = Program {
            vertex_version: vertex_version_uv,
            fragment_version: fragment_version_uv,
        };

        let buffer_pos = GpuBuffer::new(POS_COMPONENTS * BACK_END_MAX_VERTEX_COUNT);
        let buffer_uv = GpuBuffer::new(UV_COMPONENTS * BACK_END_MAX_VERTEX_COUNT);

        let batch = Batch {
            program,
            state: DrawState::initial(),
            color: Color::opaque_white(),
            slice: Slice { start: 0, end: 0 },
        };
        let batch_uv = BatchUv {
            program: program_uv,
            state: DrawState::initial(),
            color: Color::opaque_white(),
            texture: placeholder_texture(),
            sampler: SamplerInfo::fixed(),
            slice: Slice { start: 0, end: 0 },
        };
        let g = Gfx2d { buffer_pos, buffer_uv, batch, batch_uv };
        proof {
            let chosen = spec_choose_version(spec_bundled_versions(), device.shader_model);
            assert(g@.buffer_pos.contents =~= Seq::<u32>::empty());
            assert(g@.buffer_uv.contents =~= Seq::<u32>::empty());
            assert(g@ == spec_new_gfx2d(chosen.unwrap()));
        }
        Ok(g)
    }

    /// Opens a drawing session against the target frame: builds the
    /// coordinate context covering the target and the frame adapter the
    /// caller draws through, handing it the command stream and the
    /// persistent resources. The caller's drawing logic runs once between
    /// this and [`GfxGraphics::finish`].
    pub fn draw(self, renderer: Renderer, frame: Frame) -> (r: (Context, GfxGraphics))
        ensures
            r.0 == Context::spec_for_frame(frame),
            r.1.renderer == renderer,
            r.1.frame == frame,
            r.1.g2d == self,
    {
        let c = Context::for_frame(&frame);
        let g = GfxGraphics::new(renderer, frame, self);
        (c, g)
    }
}

/// A target framebuffer, reduced to what the adapter reads of it: its pixel
/// dimensions. The surface itself stays with the host.
#[derive(Clone, Copy, PartialEq, Eq, Structural, Debug)]
pub struct Frame {
    pub width: u32,
    pub height: u32,
}

/// The coordinate context of one drawing session: an axis-aligned space
/// with the origin at a corner and extent equal to the target's dimensions,
/// created fresh per session.
#[derive(Clone, Copy, PartialEq, Eq, Structural, Debug)]
pub struct Context {
    pub width: u32,
    pub height: u32,
}

impl Context {
    /// The context covering the whole of `frame`.
    pub open spec fn spec_for_frame(frame: Frame) -> Context {
        Context { width: frame.width, height: frame.height }
    }

    /// Builds the context covering the whole of `frame`.
    pub fn for_frame(frame: &Frame) -> (c: Context)
        ensures
            c == Context::spec_for_frame(*frame),
    {
        Context { width: frame.width, height: frame.height }
    }
}

/// One textured draw burst: parallel flat sequences of position components
/// and texture-coordinate components for the same vertices.
#[derive(Clone, PartialEq, Eq, Debug)]
pub struct TexturedBatch {
    pub positions: Vec<u32>,
    pub uvs: Vec<u32>,
}

/// The mathematical view of a [`TexturedBatch`].
pub struct TexturedBatchModel {
    pub positions: Seq<u32>,
    pub uvs: Seq<u32>,
}

impl View for TexturedBatch {
    type V = TexturedBatchModel;

    open spec fn view(&self) -> TexturedBatchModel {
        TexturedBatchModel { positions: self.positions@, uvs: self.uvs@ }
    }
}

impl DeepView for TexturedBatch {
    type V = TexturedBatchModel;

    open spec fn deep_view(&self) -> TexturedBatchModel {
        self@
    }
}

/// The error a solid draw call reports, `None` when every batch fits the
/// position buffer. Earlier batches take precedence, so this is the first
/// violation in submission order.
pub open spec fn spec_solid_violation(batches: Seq<Seq<u32>>, capacity: nat) -> Option<DrawError>
    decreases batches.len(),
{
    if batches.len() == 0 {
        None
    } else {
        let prev = spec_solid_violation(batches.drop_last(), capacity);
        if prev is Some {
            prev
        } else if batches.last().len() > capacity {
            Some(DrawError::TooManyVertices)
        } else {
            None
        }
    }
}

/// The error a textured draw call reports, `None` when every batch pairs
/// equally many position and texture-coordinate vertices and fits the
/// buffers. Within one batch the count mismatch is detected first, as the
/// upload would only follow the consistency check.
pub open spec fn spec_textured_violation(
    batches: Seq<TexturedBatchModel>,
    capacity: nat,
) -> Option<DrawError>
    decreases batches.len(),
{
    if batches.len() == 0 {
        None
    } else {
        let prev = spec_textured_violation(batches.drop_last(), capacity);
        let b = batches.last();
        if prev is Some {
            prev
        } else if b.positions.len() != b.uvs.len() {
            Some(DrawError::MismatchedVertexCounts)
        } else if b.positions.len() > capacity {
            Some(DrawError::TooManyVertices)
        } else {
            None
        }
    }
}

/// Effect of one solid draw burst: the position buffer is rewritten from
/// offset zero, the draw range becomes `[0, vertex count)`, and the stream
/// grows by the upload and one draw command snapshotting the pipeline's
/// current state and tint.
pub open spec fn spec_solid_step(
    g: Gfx2dModel,
    log: Seq<CommandModel>,
    data: Seq<u32>,
) -> (Gfx2dModel, Seq<CommandModel>) {
    let n = (data.len() / (POS_COMPONENTS as nat)) as usize;
    let g2 = Gfx2dModel {
        buffer_pos: GpuBufferModel {
            capacity: g.buffer_pos.capacity,
            contents: spec_write_prefix(g.buffer_pos.contents, data),
        },
        buffer_uv: g.buffer_uv,
        batch: Batch {
            program: g.batch.program,
            state: g.batch.state,
            color: g.batch.color,
            slice: Slice { start: 0, end: n },
        },
        batch_uv: g.batch_uv,
    };
    (
        g2,
        log + seq![
            CommandModel::UpdatePositionBuffer { data },
            CommandModel::DrawSolid { state: g.batch.state, color: g.batch.color, start: 0, end: n },
        ],
    )
}

/// The solid bursts of one call, applied in order.
pub open spec fn spec_solid_run(
    g: Gfx2dModel,
    log: Seq<CommandModel>,
    batches: Seq<Seq<u32>>,
) -> (Gfx2dModel, Seq<CommandModel>)
    decreases batches.len(),
{
    if batches.len() == 0 {
        (g, log)
    } else {
        let prev = spec_solid_run(g, log, batches.drop_last());
        spec_solid_step(prev.0, prev.1, batches.last())
    }
}

/// Full effect of a solid draw call: the solid pipeline's state is
/// overwritten once — culling forced off — together with the tint, then
/// every burst uploads and draws.
pub open spec fn spec_draw_solid(
    g: Gfx2dModel,
    log: Seq<CommandModel>,
    state: DrawState,
    color: Color,
    batches: Seq<Seq<u32>>,
) -> (Gfx2dModel, Seq<CommandModel>) {
    let g0 = Gfx2dModel {
        buffer_pos: g.buffer_pos,
        buffer_uv: g.buffer_uv,
        batch: Batch {
            program: g.batch.program,
            state: spec_with_culling_disabled(state),
            color,
            slice: g.batch.slice,
        },
        batch_uv: g.batch_uv,
    };
    spec_solid_run(g0, log, batches)
}

/// Effect of one textured draw burst: both buffers are rewritten from
/// offset zero, the draw range becomes `[0, vertex count)`, and the stream
/// grows by the two uploads and one draw command snapshotting the pipeline's
/// current state, tint and texture binding.
pub open spec fn spec_textured_step(
    g: Gfx2dModel,
    log: Seq<CommandModel>,
    b: TexturedBatchModel,
) -> (Gfx2dModel, Seq<CommandModel>) {
    let n = (b.positions.len() / (POS_COMPONENTS as nat)) as usize;
    let g2 = Gfx2dModel {
        buffer_pos: GpuBufferModel {
            capacity: g.buffer_pos.capacity,
            contents: spec_write_prefix(g.buffer_pos.contents, b.positions),
        },
        buffer_uv: GpuBufferModel {
            capacity: g.buffer_uv.capacity,
            contents: spec_write_prefix(g.buffer_uv.contents, b.uvs),
        },
        batch: g.batch,
        batch_uv: BatchUv {
            program: g.batch_uv.program,
            state: g.batch_uv.state,
            color: g.batch_uv.color,
            texture: g.batch_uv.texture,
            sampler: g.batch_uv.sampler,
            slice: Slice { start: 0, end: n },
        },
    };
    (
        g2,
        log + seq![
            CommandModel::UpdatePositionBuffer { data: b.positions },
            CommandModel::UpdateUvBuffer { data: b.uvs },
            CommandModel::DrawTextured {
                state: g.batch_uv.state,
                color: g.batch_uv.color,
                texture: g.batch_uv.texture,
                start: 0,
                end: n,
            },
        ],
    )
}

/// The textured bursts of one call, applied in order.
pub open spec fn spec_textured_run(
    g: Gfx2dModel,
    log: Seq<CommandModel>,
    batches: Seq<TexturedBatchModel>,
) -> (Gfx2dModel, Seq<CommandModel>)
    decreases batches.len(),
{
    if batches.len() == 0 {
        (g, log)
    } else {
        let prev = spec_textured_run(g, log, batches.drop_last());
        spec_textured_step(prev.0, prev.1, batches.last())
    }
}

/// Full effect of a textured draw call: the textured pipeline's state is
/// overwritten once — culling forced off — together with the tint, and its
/// binding swapped to the supplied texture (the sampler stays); then every
/// burst uploads both buffers and draws.
pub open spec fn spec_draw_textured(
    g: Gfx2dModel,
    log: Seq<CommandModel>,
    state: DrawState,
    color: Color,
    texture: Texture,
    batches: Seq<TexturedBatchModel>,
) -> (Gfx2dModel, Seq<CommandModel>) {
    let g0 = Gfx2dModel {
        buffer_pos: g.buffer_pos,
        buffer_uv: g.buffer_uv,
        batch: g.batch,
        batch_uv: BatchUv {
            program: g.batch_uv.program,
            state: spec_with_culling_disabled(state),
            color,
            texture,
            sampler: g.batch_uv.sampler,
            slice: g.batch_uv.slice,
        },
    };
    spec_textured_run(g0, log, batches)
}

/// Copies a batch of components, so the command record owns its data.
fn clone_components(data: &Vec<u32>) -> (r: Vec<u32>)
    ensures
        r@ == data@,
{
    let mut r: Vec<u32> = Vec::new();
    proof {
        assert(r@ =~= data@.take(0));
    }
    let mut i: usize = 0;
    while i < data.len()
        invariant
            i <= data.len(),
            r@ == data@.take(i as int),
        decreases data.len() - i,
    {
        r.push(data[i]);
        proof {
            assert(data@.take(i + 1) =~= data@.take(i as int).push(data@[i as int]));
        }
        i = i + 1;
    }
    proof {
        assert(data@.take(data@.len() as int) =~= data@);
    }
    r
}

proof fn lemma_solid_violation_persists(batches: Seq<Seq<u32>>, capacity: nat, k: int)
    requires
        0 <= k <= batches.len(),
        spec_solid_violation(batches.take(k), capacity) is Some,
    ensures
        spec_solid_violation(batches, capacity) == spec_solid_violation(batches.take(k), capacity),
    decreases batches.len() - k,
{
    if k == batches.len() {
        assert(batches.take(k) =~= batches);
    } else {
        assert(batches.take(k + 1).drop_last() =~= batches.take(k));
        lemma_solid_violation_persists(batches, capacity, k + 1);
    }
}

proof fn lemma_solid_violation_none_all_fit(batches: Seq<Seq<u32>>, capacity: nat)
    requires
        spec_solid_violation(batches, capacity) is None,
    ensures
        forall|i: int| 0 <= i < batches.len() ==> #[trigger] batches[i].len() <= capacity,
    decreases batches.len(),
{
    if batches.len() > 0 {
        lemma_solid_violation_none_all_fit(batches.drop_last(), capacity);
        assert(forall|i: int|
            0 <= i < batches.len() - 1 ==> batches[i] == batches.drop_last()[i]);
    }
}

proof fn lemma_textured_violation_persists(
    batches: Seq<TexturedBatchModel>,
    capacity: nat,
    k: int,
)
    requires
        0 <= k <= batches.len(),
        spec_textured_violation(batches.take(k), capacity) is Some,
    ensures
        spec_textured_violation(batches, capacity) == spec_textured_violation(
            batches.take(k),
            capacity,
        ),
    decreases batches.len() - k,
{
    if k == batches.len() {
        assert(batches.take(k) =~= batches);
    } else {
        assert(batches.take(k + 1).drop_last() =~= batches.take(k));
        lemma_textured_violation_persists(batches, capacity, k + 1);
    }
}

proof fn lemma_textured_violation_none_all_fit(batches: Seq<TexturedBatchModel>, capacity: nat)
    requires
        spec_textured_violation(batches, capacity) is None,
    ensures
        forall|i: int|
            0 <= i < batches.len() ==> (#[trigger] batches[i]).positions.len() == batches[i].uvs.len()
                && batches[i].positions.len() <= capacity,
    decreases batches.len(),
{
    if batches.len() > 0 {
        lemma_textured_violation_none_all_fit(batches.drop_last(), capacity);
        assert(forall|i: int|
            0 <= i < batches.len() - 1 ==> batches[i] == batches.drop_last()[i]);
    }
}

/// One drawing session: the recorded command stream, the target frame, and
/// the persistent resources, exposing the drawing surface — clear, the two
/// triangle-list draws, and the texture-alpha query.
pub struct GfxGraphics {
    pub renderer: Renderer,
    pub frame: Frame,
    pub g2d: Gfx2d,
}

impl GfxGraphics {
    /// A session is well formed when its resources are.
    pub open spec fn wf(self) -> bool {
        self.g2d@.wf()
    }

    /// Opens a session for rendering 2D graphics to a frame through a
    /// command stream.
    pub fn new(renderer: Renderer, frame: Frame, g2d: Gfx2d) -> (g: GfxGraphics)
        ensures
            g.renderer == renderer,
            g.frame == frame,
            g.g2d == g2d,
    {
        GfxGraphics { renderer, frame, g2d }
    }

    /// Ends the session, handing back the persistent resources and the
    /// recorded command stream.
    pub fn finish(self) -> (r: (Gfx2d, Renderer))
        ensures
            r.0 == self.g2d,
            r.1 == self.renderer,
    {
        (self.g2d, self.renderer)
    }

    /// Reports whether the texture's pixel format has an alpha channel:
    /// true exactly for the four-component RGBA layout, false for every
    /// other format.
    pub fn has_texture_alpha(&self, texture: &Texture) -> (r: bool)
        ensures
            r == texture.spec_has_alpha(),
    {
        texture.components == TextureComponents::Rgba
    }

    /// Clears the target's color buffer: submits exactly one clear command,
    /// at the issue point, touching nothing else.
    pub fn clear(&mut self, color: Color)
        ensures
            final(self).renderer@ == old(self).renderer@.push(
                (CommandModel::Clear { color }),
            ),
            final(self).g2d == old(self).g2d,
            final(self).frame == old(self).frame,
    {
        self.renderer.submit(Command::Clear { color });
    }

    /// Draws flat-colored triangle lists. The solid pipeline's render state
    /// (culling forced off) and tint are overwritten once; then each batch
    /// of position components is uploaded at offset zero and submitted as
    /// exactly one draw command over `[0, batch length / POS_COMPONENTS)`.
    /// A batch beyond the buffer's capacity refuses the whole call before
    /// anything is touched or submitted.
    pub fn draw_solid_triangles(
        &mut self,
        state: &DrawState,
        color: Color,
        batches: &Vec<Vec<u32>>,
    ) -> (r: Result<(), DrawError>)
        requires
            old(self).wf(),
        ensures
            final(self).wf(),
            final(self).frame == old(self).frame,
            ({
                let violation = spec_solid_violation(
                    batches.deep_view(),
                    old(self).g2d@.buffer_pos.capacity as nat,
                );
                match r {
                    Ok(_) => {
                        let eff = spec_draw_solid(
                            old(self).g2d@,
                            old(self).renderer@,
                            *state,
                            color,
                            batches.deep_view(),
                        );
                        violation is None && final(self).g2d@ == eff.0 && final(self).renderer@
                            == eff.1
                    },
                    Err(e) => violation == Some(e) && *final(self) == *old(self),
                }
            }),
    {
        let ghost dv = batches.deep_view();
        let ghost cap = self.g2d@.buffer_pos.capacity as nat;

        // Refuse the whole call before touching any pipeline or buffer state.
        let mut i: usize = 0;
        while i < batches.len()
            invariant
                i <= batches.len(),
                *self == *old(self),
                old(self).wf(),
                dv == batches.deep_view(),
                cap == old(self).g2d@.buffer_pos.capacity as nat,
                spec_solid_violation(dv.take(i as int), cap) is None,
            decreases batches.len() - i,
        {
            proof {
                assert(dv[i as int] =~= batches@[i as int]@);
                assert(dv.take(i + 1).drop_last() =~= dv.take(i as int));
            }
            if batches[i].len() > self.g2d.buffer_pos.capacity {
                proof {
                    lemma_solid_violation_persists(dv, cap, i + 1);
                }
                return Err(DrawError::TooManyVertices);
            }
            i = i + 1;
        }
        proof {
            assert(dv.take(batches@.len() as int) =~= dv);
        }

        // Overwrite the pipeline's state and tint once, culling forced off.
        self.g2d.batch.state = with_culling_disabled(state);
        self.g2d.batch.color = color;
        let ghost g0 = self.g2d@;
        let ghost log0 = self.renderer@;

        let mut i: usize = 0;
        while i < batches.len()
            invariant
                i <= batches.len(),
                self.frame == old(self).frame,
                self.g2d@.wf(),
                dv == batches.deep_view(),
                cap == self.g2d@.buffer_pos.capacity as nat,
                spec_solid_violation(dv, cap) is None,
                self.g2d@ == spec_solid_run(g0, log0, dv.take(i as int)).0,
                self.renderer@ == spec_solid_run(g0, log0, dv.take(i as int)).1,
            decreases batches.len() - i,
        {
            let ghost pre = spec_solid_run(g0, log0, dv.take(i as int));
            proof {
                assert(dv[i as int] =~= batches@[i as int]@);
                lemma_solid_violation_none_all_fit(dv, cap);
                assert(dv[i as int].len() <= cap);
            }
            let data = &batches[i];
            self.g2d.buffer_pos.upload(data);
            let record = clone_components(data);
            self.renderer.submit(Command::UpdatePositionBuffer { data: record });
            let n = data.len() / POS_COMPONENTS;
            self.g2d.batch.slice = Slice { start: 0, end: n };
            self.renderer.submit(
                Command::DrawSolid {
                    state: self.g2d.batch.state,
                    color: self.g2d.batch.color,
                    start: 0,
                    end: n,
                },
            );
            proof {
                let post = spec_solid_step(pre.0, pre.1, dv[i as int]);
                assert(dv.take(i + 1).drop_last() =~= dv.take(i as int));
                assert(dv.take(i + 1).last() == dv[i as int]);
                assert(self.renderer@ =~= post.1);
                assert(self.g2d@ == post.0);
                assert(spec_solid_run(g0, log0, dv.take(i + 1)) == post);
            }
            i = i + 1;
        }
        proof {
            assert(dv.take(batches@.len() as int) =~= dv);
        }
        Ok(())
    }

    /// Draws textured triangle lists with a tint. The textured pipeline's
    /// render state (culling forced off) and tint are overwritten once and
    /// its binding is swapped to the supplied texture — the sampler settings
    /// stay; then each batch's position and texture-coordinate components
    /// are uploaded at offset zero and submitted as exactly one draw command
    /// over `[0, position length / POS_COMPONENTS)`. A batch pairing
    /// mismatched vertex counts, or one beyond the buffers' capacity,
    /// refuses the whole call before anything is touched or submitted.
    pub fn draw_textured_triangles(
        &mut self,
        state: &DrawState,
        color: Color,
        texture: &Texture,
        batches: &Vec<TexturedBatch>,
    ) -> (r: Result<(), DrawError>)
        requires
            old(self).wf(),
        ensures
            final(self).wf(),
            final(self).frame == old(self).frame,
            ({
                let violation = spec_textured_violation(
                    batches.deep_view(),
                    old(self).g2d@.buffer_pos.capacity as nat,
                );
                match r {
                    Ok(_) => {
                        let eff = spec_draw_textured(
                            old(self).g2d@,
                            old(self).renderer@,
                            *state,
                            color,
                            *texture,
                            batches.deep_view(),
                        );
                        violation is None && final(self).g2d@ == eff.0 && final(self).renderer@
                            == eff.1
                    },
                    Err(e) => violation == Some(e) && *final(self) == *old(self),
                }
            }),
    {
        let ghost dv = batches.deep_view();
        let ghost cap = self.g2d@.buffer_pos.capacity as nat;

        // Refuse the whole call before touching any pipeline or buffer state.
        let mut i: usize = 0;
        while i < batches.len()
            invariant
                i <= batches.len(),
                *self == *old(self),
                old(self).wf(),
                dv == batches.deep_view(),
                cap == old(self).g2d@.buffer_pos.capacity as nat,
                spec_textured_violation(dv.take(i as int), cap) is None,
            decreases batches.len() - i,
        {
            proof {
                assert(dv[i as int] == batches@[i as int]@);
                assert(dv.take(i + 1).drop_last() =~= dv.take(i as int));
            }
            if batches[i].positions.len() != batches[i].uvs.len() {
                proof {
                    lemma_textured_violation_persists(dv, cap, i + 1);
                }
                return Err(DrawError::MismatchedVertexCounts);
            }
            if batches[i].positions.len() > self.g2d.buffer_pos.capacity {
                proof {
                    lemma_textured_violation_persists(dv, cap, i + 1);
                }
                return Err(DrawError::TooManyVertices);
            }
            i = i + 1;
        }
        proof {
            assert(dv.take(batches@.len() as int) =~= dv);
        }

        // Overwrite state and tint once and swap the texture binding; the
        // sampler settings are untouched.
        self.g2d.batch_uv.state = with_culling_disabled(state);
        self.g2d.batch_uv.color = color;
        self.g2d.batch_uv.texture = *texture;
        let ghost g0 = self.g2d@;
        let ghost log0 = self.renderer@;

        let mut i: usize = 0;
        while i < batches.len()
            invariant
                i <= batches.len(),
                self.frame == old(self).frame,
                self.g2d@.wf(),
                dv == batches.deep_view(),
                cap == self.g2d@.buffer_pos.capacity as nat,
                self.g2d@.buffer_uv.capacity == self.g2d@.buffer_pos.capacity,
                spec_textured_violation(dv, cap) is None,
                self.g2d@ == spec_textured_run(g0, log0, dv.take(i as int)).0,
                self.renderer@ == spec_textured_run(g0, log0, dv.take(i as int)).1,
            decreases batches.len() - i,
        {
            let ghost pre = spec_textured_run(g0, log0, dv.take(i as int));
            proof {
                assert(dv[i as int] == batches@[i as int]@);
                lemma_textured_violation_none_all_fit(dv, cap);
                assert(dv[i as int].positions.len() <= cap);
                assert(dv[i as int].uvs.len() <= cap);
            }
            let b = &batches[i];
            self.g2d.buffer_pos.upload(&b.positions);
            self.g2d.buffer_uv.upload(&b.uvs);
            let record_pos = clone_components(&b.positions);
            self.renderer.submit(Command::UpdatePositionBuffer { data: record_pos });
            let record_uv = clone_components(&b.uvs);
            self.renderer.submit(Command::UpdateUvBuffer { data: record_uv });
            let n = b.positions.len() / POS_COMPONENTS;
            self.g2d.batch_uv.slice = Slice { start: 0, end: n };
            self.renderer.submit(
                Command::DrawTextured {
                    state: self.g2d.batch_uv.state,
                    color: self.g2d.batch_uv.color,
                    texture: self.g2d.batch_uv.texture,
                    start: 0,
                    end: n,
                },
            );
            proof {
                let post = spec_textured_step(pre.0, pre.1, dv[i as int]);
                assert(dv.take(i + 1).drop_last() =~= dv.take(i as int));
                assert(dv.take(i + 1).last() == dv[i as int]);
                assert(self.renderer@ =~= post.1);
                assert(self.g2d@ == post.0);
                assert(spec_textured_run(g0, log0, dv.take(i + 1)) == post);
            }
            i = i + 1;
        }
        proof {
            assert(dv.take(batches@.len() as int) =~= dv);
        }
        Ok(())
    }
}

} // verus!
