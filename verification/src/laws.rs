//! Cross-operation laws of the drawing surface, proved over the effect
//! functions that the drawing operations' contracts pin down.

use vstd::prelude::*;

use crate::back_end::{
    spec_draw_solid, spec_draw_textured, spec_solid_run, spec_textured_run, Batch, BatchUv,
    Gfx2dModel, TexturedBatchModel, POS_COMPONENTS,
};
use crate::command::CommandModel;
use crate::draw_state::{spec_with_culling_disabled, Color, CullFace, DrawState};
use crate::texture::Texture;

verus! {

/// Characterizes the stream a run of solid bursts produces: the prior
/// stream is kept as a prefix, each burst appends one position upload then
/// one draw command snapshotting the pipeline's state and tint (which the
/// run never changes), and no burst ever submits a clear.
pub proof fn lemma_solid_run_commands(g: Gfx2dModel, log: Seq<CommandModel>, batches: Seq<Seq<u32>>)
    ensures
        ({
            let eff = spec_solid_run(g, log, batches);
            &&& eff.1.len() == log.len() + 2 * batches.len()
            &&& eff.1.take(log.len() as int) == log
            &&& eff.0.batch.state == g.batch.state
            &&& eff.0.batch.color == g.batch.color
            &&& eff.0.batch_uv == g.batch_uv
            &&& forall|i: int|
                0 <= i < batches.len() ==> {
                    let bi = #[trigger] batches[i];
                    &&& eff.1[log.len() + 2 * i] == (CommandModel::UpdatePositionBuffer {
                        data: bi,
                    })
                    &&& eff.1[log.len() + 2 * i + 1] == (CommandModel::DrawSolid {
                        state: g.batch.state,
                        color: g.batch.color,
                        start: 0,
                        end: (bi.len() / (POS_COMPONENTS as nat)) as usize,
                    })
                }
            &&& forall|k: int|
                log.len() <= k < eff.1.len() ==> !((#[trigger] eff.1[k]) is Clear)
        }),
    decreases batches.len(),
{
    let eff = spec_solid_run(g, log, batches);
    if batches.len() == 0 {
        assert(eff.1.take(log.len() as int) =~= log);
    } else {
        lemma_solid_run_commands(g, log, batches.drop_last());
        let prev = spec_solid_run(g, log, batches.drop_last());
        assert(forall|i: int|
            0 <= i < batches.len() - 1 ==> batches.drop_last()[i] == #[trigger] batches[i]);
        assert(eff.1.take(log.len() as int) =~= log);
        assert(batches[batches.len() - 1] == batches.last());
    }
}

/// Characterizes the stream a run of textured bursts produces: the prior
/// stream is kept as a prefix; each burst appends the two uploads then one
/// draw command snapshotting the pipeline's state, tint and texture binding,
/// none of which the run changes; and every textured draw command of the
/// run samples exactly the binding the run started with.
pub proof fn lemma_textured_run_commands(
    g: Gfx2dModel,
    log: Seq<CommandModel>,
    batches: Seq<TexturedBatchModel>,
)
    ensures
        ({
            let eff = spec_textured_run(g, log, batches);
            &&& eff.1.len() == log.len() + 3 * batches.len()
            &&& eff.1.take(log.len() as int) == log
            &&& eff.0.batch_uv.state == g.batch_uv.state
            &&& eff.0.batch_uv.color == g.batch_uv.color
            &&& eff.0.batch_uv.texture == g.batch_uv.texture
            &&& eff.0.batch_uv.sampler == g.batch_uv.sampler
            &&& eff.0.batch == g.batch
            &&& forall|i: int|
                0 <= i < batches.len() ==> {
                    let bi = #[trigger] batches[i];
                    &&& eff.1[log.len() + 3 * i] == (CommandModel::UpdatePositionBuffer {
                        data: bi.positions,
                    })
                    &&& eff.1[log.len() + 3 * i + 1] == (CommandModel::UpdateUvBuffer {
                        data: bi.uvs,
                    })
                    &&& eff.1[log.len() + 3 * i + 2] == (CommandModel::DrawTextured {
                        state: g.batch_uv.state,
                        color: g.batch_uv.color,
                        texture: g.batch_uv.texture,
                        start: 0,
                        end: (bi.positions.len() / (POS_COMPONENTS as nat)) as usize,
                    })
                }
            &&& forall|k: int|
                log.len() <= k < eff.1.len() ==> ((#[trigger] eff.1[k]) matches
                    CommandModel::DrawTextured { texture: t, .. } ==> t == g.batch_uv.texture)
            &&& forall|k: int|
                log.len() <= k < eff.1.len() ==> !((#[trigger] eff.1[k]) is Clear)
        }),
    decreases batches.len(),
{
    let eff = spec_textured_run(g, log, batches);
    if batches.len() == 0 {
        assert(eff.1.take(log.len() as int) =~= log);
    } else {
        lemma_textured_run_commands(g, log, batches.drop_last());
        let prev = spec_textured_run(g, log, batches.drop_last());
        assert(forall|i: int|
            0 <= i < batches.len() - 1 ==> batches.drop_last()[i] == #[trigger] batches[i]);
        assert(eff.1.take(log.len() as int) =~= log);
        assert(batches[batches.len() - 1] == batches.last());
    }
}

/// Law: one solid draw call appends, per vertex batch, exactly one position
/// upload followed by exactly one draw command over the range
/// `[0, batch length / POS_COMPONENTS)`, carrying the supplied tint and the
/// supplied state with culling forced off — however many batches the one
/// call supplies — and leaves everything already submitted untouched.
pub proof fn lemma_solid_draw_commands(
    g: Gfx2dModel,
    log: Seq<CommandModel>,
    state: DrawState,
    color: Color,
    batches: Seq<Seq<u32>>,
)
    ensures
        ({
            let eff = spec_draw_solid(g, log, state, color, batches);
            &&& eff.1.len() == log.len() + 2 * batches.len()
            &&& eff.1.take(log.len() as int) == log
            &&& forall|i: int|
                0 <= i < batches.len() ==> {
                    let bi = #[trigger] batches[i];
                    &&& eff.1[log.len() + 2 * i] == (CommandModel::UpdatePositionBuffer {
                        data: bi,
                    })
                    &&& eff.1[log.len() + 2 * i + 1] == (CommandModel::DrawSolid {
                        state: spec_with_culling_disabled(state),
                        color,
                        start: 0,
                        end: (bi.len() / (POS_COMPONENTS as nat)) as usize,
                    })
                }
        }),
{
    let g0 = Gfx2dModel {
        buffer_pos: g.buffer_pos,
        buffer_uv: g.buffer_uv,
        batch: Batch {
            program: g.batch.program,
            state: spec_with_culling_disabled(state),
            color,
            slice: g.batch.slice,
        },
        batch_uv: g.batch_uv,
    };
    lemma_solid_run_commands(g0, log, batches);
}

/// Law: a textured draw leaves no residual binding — after a call with
/// texture `a` followed immediately by a call with texture `b`, the
/// pipeline's binding is exactly `b`, and every textured draw command the
/// second call submitted samples `b` and none other.
pub proof fn lemma_second_texture_wins(
    g: Gfx2dModel,
    log: Seq<CommandModel>,
    state_a: DrawState,
    color_a: Color,
    a: Texture,
    batches_a: Seq<TexturedBatchModel>,
    state_b: DrawState,
    color_b: Color,
    b: Texture,
    batches_b: Seq<TexturedBatchModel>,
)
    ensures
        ({
            let eff_a = spec_draw_textured(g, log, state_a, color_a, a, batches_a);
            let eff_b = spec_draw_textured(eff_a.0, eff_a.1, state_b, color_b, b, batches_b);
            &&& eff_a.0.batch_uv.texture == a
            &&& eff_b.0.batch_uv.texture == b
            &&& forall|k: int|
                eff_a.1.len() <= k < eff_b.1.len() ==> ((#[trigger] eff_b.1[k]) matches
                    CommandModel::DrawTextured { texture: t, .. } ==> t == b)
        }),
{
    let eff_a = spec_draw_textured(g, log, state_a, color_a, a, batches_a);
    let g0a = Gfx2dModel {
        buffer_pos: g.buffer_pos,
        buffer_uv: g.buffer_uv,
        batch: g.batch,
        batch_uv: BatchUv {
            program: g.batch_uv.program,
            state: spec_with_culling_disabled(state_a),
            color: color_a,
            texture: a,
            sampler: g.batch_uv.sampler,
            slice: g.batch_uv.slice,
        },
    };
    lemma_textured_run_commands(g0a, log, batches_a);
    let g0b = Gfx2dModel {
        buffer_pos: eff_a.0.buffer_pos,
        buffer_uv: eff_a.0.buffer_uv,
        batch: eff_a.0.batch,
        batch_uv: BatchUv {
            program: eff_a.0.batch_uv.program,
            state: spec_with_culling_disabled(state_b),
            color: color_b,
            texture: b,
            sampler: eff_a.0.batch_uv.sampler,
            slice: eff_a.0.batch_uv.slice,
        },
    };
    lemma_textured_run_commands(g0b, eff_a.1, batches_b);
}

/// Law: ordering is preserved as issued — after a clear followed by one
/// solid draw call, the clear command stands exactly at its issue point,
/// everything issued before it is untouched, every command of the draw call
/// stands after it, and the draw call submits no clear of its own: the
/// drawn primitives land over the cleared background.
pub proof fn lemma_clear_then_solid_draw_order(
    g: Gfx2dModel,
    log: Seq<CommandModel>,
    clear_color: Color,
    state: DrawState,
    color: Color,
    batches: Seq<Seq<u32>>,
)
    ensures
        ({
            let after_clear = log.push((CommandModel::Clear { color: clear_color }));
            let eff = spec_draw_solid(g, after_clear, state, color, batches);
            &&& eff.1.len() == log.len() + 1 + 2 * batches.len()
            &&& eff.1.take(log.len() as int) == log
            &&& eff.1[log.len() as int] == (CommandModel::Clear { color: clear_color })
            &&& forall|k: int|
                log.len() < k < eff.1.len() ==> !((#[trigger] eff.1[k]) is Clear)
        }),
{
    let after_clear = log.push((CommandModel::Clear { color: clear_color }));
    let g0 = Gfx2dModel {
        buffer_pos: g.buffer_pos,
        buffer_uv: g.buffer_uv,
        batch: Batch {
            program: g.batch.program,
            state: spec_with_culling_disabled(state),
            color,
            slice: g.batch.slice,
        },
        batch_uv: g.batch_uv,
    };
    lemma_solid_run_commands(g0, after_clear, batches);
    let eff = spec_solid_run(g0, after_clear, batches);
    assert(eff.1[log.len() as int] == after_clear[log.len() as int]) by {
        assert(eff.1.take(after_clear.len() as int)[log.len() as int] == eff.1[log.len() as int]);
    }
    assert(eff.1.take(log.len() as int) =~= log) by {
        assert(forall|k: int|
            0 <= k < log.len() ==> eff.1.take(after_clear.len() as int)[k] == #[trigger] eff.1[k]);
    }
}

/// Law: ordering is preserved as issued for textured draws too — after a
/// clear followed by one textured draw call, the clear stands exactly at
/// its issue point, everything issued before it is untouched, every command
/// of the draw call stands after it, and the draw call submits no clear of
/// its own.
pub proof fn lemma_clear_then_textured_draw_order(
    g: Gfx2dModel,
    log: Seq<CommandModel>,
    clear_color: Color,
    state: DrawState,
    color: Color,
    texture: Texture,
    batches: Seq<TexturedBatchModel>,
)
    ensures
        ({
            let after_clear = log.push((CommandModel::Clear { color: clear_color }));
            let eff = spec_draw_textured(g, after_clear, state, color, texture, batches);
            &&& eff.1.len() == log.len() + 1 + 3 * batches.len()
            &&& eff.1.take(log.len() as int) == log
            &&& eff.1[log.len() as int] == (CommandModel::Clear { color: clear_color })
            &&& forall|k: int|
                log.len() < k < eff.1.len() ==> !((#[trigger] eff.1[k]) is Clear)
        }),
{
    let after_clear = log.push((CommandModel::Clear { color: clear_color }));
    let g0 = Gfx2dModel {
        buffer_pos: g.buffer_pos,
        buffer_uv: g.buffer_uv,
        batch: g.batch,
        batch_uv: BatchUv {
            program: g.batch_uv.program,
            state: spec_with_culling_disabled(state),
            color,
            texture,
            sampler: g.batch_uv.sampler,
            slice: g.batch_uv.slice,
        },
    };
    lemma_textured_run_commands(g0, after_clear, batches);
    let eff = spec_textured_run(g0, after_clear, batches);
    assert(eff.1[log.len() as int] == after_clear[log.len() as int]) by {
        assert(eff.1.take(after_clear.len() as int)[log.len() as int] == eff.1[log.len() as int]);
    }
    assert(eff.1.take(log.len() as int) =~= log) by {
        assert(forall|k: int|
            0 <= k < log.len() ==> eff.1.take(after_clear.len() as int)[k] == #[trigger] eff.1[k]);
    }
}

/// One operation of the drawing surface, at the level of its effect on the
/// adapter and the command stream.
pub enum SurfaceOp {
    Clear { color: Color },
    Solid { state: DrawState, color: Color, batches: Seq<Seq<u32>> },
    Textured { state: DrawState, color: Color, texture: Texture, batches: Seq<TexturedBatchModel> },
}

/// The adapter state and command stream after a sequence of drawing-surface
/// operations, applied in order.
pub open spec fn spec_apply_ops(
    g: Gfx2dModel,
    log: Seq<CommandModel>,
    ops: Seq<SurfaceOp>,
) -> (Gfx2dModel, Seq<CommandModel>)
    decreases ops.len(),
{
    if ops.len() == 0 {
        (g, log)
    } else {
        let prev = spec_apply_ops(g, log, ops.drop_last());
        match ops.last() {
            SurfaceOp::Clear { color } => (
                prev.0,
                prev.1.push((CommandModel::Clear { color })),
            ),
            SurfaceOp::Solid { state, color, batches } => spec_draw_solid(
                prev.0,
                prev.1,
                state,
                color,
                batches,
            ),
            SurfaceOp::Textured { state, color, texture, batches } => spec_draw_textured(
                prev.0,
                prev.1,
                state,
                color,
                texture,
                batches,
            ),
        }
    }
}

/// Law: the no-culling policy is permanent — starting from an adapter with
/// culling disabled on both pipelines, any sequence of clears and draw
/// calls, whatever culling their states request, leaves culling disabled on
/// both pipelines.
pub proof fn lemma_culling_disabled_after_any_ops(
    g: Gfx2dModel,
    log: Seq<CommandModel>,
    ops: Seq<SurfaceOp>,
)
    requires
        g.batch.state.cull_face == CullFace::Nothing,
        g.batch_uv.state.cull_face == CullFace::Nothing,
    ensures
        spec_apply_ops(g, log, ops).0.batch.state.cull_face == CullFace::Nothing,
        spec_apply_ops(g, log, ops).0.batch_uv.state.cull_face == CullFace::Nothing,
    decreases ops.len(),
{
    if ops.len() > 0 {
        lemma_culling_disabled_after_any_ops(g, log, ops.drop_last());
        let prev = spec_apply_ops(g, log, ops.drop_last());
        match ops.last() {
            SurfaceOp::Clear { .. } => {},
            SurfaceOp::Solid { state, color, batches } => {
                let g0 = Gfx2dModel {
                    buffer_pos: prev.0.buffer_pos,
                    buffer_uv: prev.0.buffer_uv,
                    batch: Batch {
                        program: prev.0.batch.program,
                        state: spec_with_culling_disabled(state),
                        color,
                        slice: prev.0.batch.slice,
                    },
                    batch_uv: prev.0.batch_uv,
                };
                lemma_solid_run_commands(g0, prev.1, batches);
            },
            SurfaceOp::Textured { state, color, texture, batches } => {
                let g0 = Gfx2dModel {
                    buffer_pos: prev.0.buffer_pos,
                    buffer_uv: prev.0.buffer_uv,
                    batch: prev.0.batch,
                    batch_uv: BatchUv {
                        program: prev.0.batch_uv.program,
                        state: spec_with_culling_disabled(state),
                        color,
                        texture,
                        sampler: prev.0.batch_uv.sampler,
                        slice: prev.0.batch_uv.slice,
                    },
                };
                lemma_textured_run_commands(g0, prev.1, batches);
            },
        }
    }
}

} // verus!
