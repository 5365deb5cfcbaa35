use gfx_graphics::back_end::{
    DeviceCaps, DrawError, Frame, Gfx2d, GfxGraphics, TexturedBatch, BACK_END_MAX_VERTEX_COUNT,
    POS_COMPONENTS,
};
use gfx_graphics::command::{Command, Renderer};
use gfx_graphics::draw_state::{BlendMode, Color, CullFace, DrawState, StencilMode};
use gfx_graphics::shaders::GLSL_150;
use gfx_graphics::texture::{Texture, TextureComponents};

fn session() -> GfxGraphics {
    let g2d = Gfx2d::new(&DeviceCaps { shader_model: GLSL_150 }).unwrap();
    GfxGraphics::new(Renderer::new(), Frame { width: 320, height: 240 }, g2d)
}

fn plain_state() -> DrawState {
    DrawState { blend: None, stencil: None, scissor: None, cull_face: CullFace::Nothing }
}

fn tint(r: u32) -> Color {
    Color { r, g: 0, b: 0, a: 0 }
}

fn rgba_texture(id: u64) -> Texture {
    Texture { id, width: 2, height: 2, components: TextureComponents::Rgba }
}

#[test]
fn solid_draw_submits_one_draw_per_batch() {
    let mut g = session();
    // Two bursts in one call: a triangle and two triangles.
    let first: Vec<u32> = (0..6).collect();
    let second: Vec<u32> = (0..12).collect();
    let r = g.draw_solid_triangles(&plain_state(), tint(5), &vec![first.clone(), second.clone()]);
    assert_eq!(r, Ok(()));

    assert_eq!(g.renderer.commands.len(), 4);
    match &g.renderer.commands[0] {
        Command::UpdatePositionBuffer { data } => assert_eq!(data, &first),
        other => panic!("unexpected command {:?}", other),
    }
    match &g.renderer.commands[1] {
        Command::DrawSolid { state, color, start, end } => {
            assert_eq!(state.cull_face, CullFace::Nothing);
            assert_eq!(*color, tint(5));
            assert_eq!((*start, *end), (0, first.len() / POS_COMPONENTS));
        }
        other => panic!("unexpected command {:?}", other),
    }
    match &g.renderer.commands[2] {
        Command::UpdatePositionBuffer { data } => assert_eq!(data, &second),
        other => panic!("unexpected command {:?}", other),
    }
    match &g.renderer.commands[3] {
        Command::DrawSolid { start, end, .. } => assert_eq!((*start, *end), (0, 6)),
        other => panic!("unexpected command {:?}", other),
    }
    assert_eq!(g.g2d.batch.slice.end, 6);
}

#[test]
fn solid_draw_rejects_oversized_batch() {
    let mut g = session();
    let oversized: Vec<u32> = vec![0; POS_COMPONENTS * BACK_END_MAX_VERTEX_COUNT + 2];
    let r = g.draw_solid_triangles(&plain_state(), tint(1), &vec![oversized]);
    assert_eq!(r, Err(DrawError::TooManyVertices));
    assert!(g.renderer.commands.is_empty());
    assert!(g.g2d.buffer_pos.contents.is_empty());
    // The pipeline's tint was not touched either: still the initial white.
    assert_ne!(g.g2d.batch.color, tint(1));
}

#[test]
fn solid_draw_reuses_buffer_prefix() {
    let mut g = session();
    let r = g.draw_solid_triangles(&plain_state(), tint(1), &vec![vec![1, 2, 3, 4]]);
    assert_eq!(r, Ok(()));
    let r = g.draw_solid_triangles(&plain_state(), tint(2), &vec![vec![9, 9]]);
    assert_eq!(r, Ok(()));
    // The second upload overwrote only the prefix of the reused buffer.
    assert_eq!(g.g2d.buffer_pos.contents, vec![9, 9, 3, 4]);
    assert_eq!(g.g2d.batch.slice.end, 1);
}

#[test]
fn textured_mismatch_fails_fast_and_draws_nothing() {
    let mut g = session();
    let batch = TexturedBatch { positions: vec![0; 6], uvs: vec![0; 4] };
    let r = g.draw_textured_triangles(&plain_state(), tint(3), &rgba_texture(1), &vec![batch]);
    assert_eq!(r, Err(DrawError::MismatchedVertexCounts));
    assert!(g.renderer.commands.is_empty());
    // The binding still points at the placeholder, not the supplied texture.
    assert_eq!(g.g2d.batch_uv.texture.id, 0);
}

#[test]
fn textured_oversized_batch_is_refused() {
    let mut g = session();
    let len = POS_COMPONENTS * BACK_END_MAX_VERTEX_COUNT + 2;
    let batch = TexturedBatch { positions: vec![0; len], uvs: vec![0; len] };
    let r = g.draw_textured_triangles(&plain_state(), tint(3), &rgba_texture(1), &vec![batch]);
    assert_eq!(r, Err(DrawError::TooManyVertices));
    assert!(g.renderer.commands.is_empty());
}

#[test]
fn textured_draw_submits_uploads_then_draw() {
    let mut g = session();
    let positions: Vec<u32> = (0..6).collect();
    let uvs: Vec<u32> = (10..16).collect();
    let batch = TexturedBatch { positions: positions.clone(), uvs: uvs.clone() };
    let texture = rgba_texture(9);
    let r = g.draw_textured_triangles(&plain_state(), tint(4), &texture, &vec![batch]);
    assert_eq!(r, Ok(()));

    assert_eq!(g.renderer.commands.len(), 3);
    assert!(matches!(&g.renderer.commands[0], Command::UpdatePositionBuffer { data } if data == &positions));
    assert!(matches!(&g.renderer.commands[1], Command::UpdateUvBuffer { data } if data == &uvs));
    match &g.renderer.commands[2] {
        Command::DrawTextured { state, color, texture: bound, start, end } => {
            assert_eq!(state.cull_face, CullFace::Nothing);
            assert_eq!(*color, tint(4));
            assert_eq!(bound.id, 9);
            assert_eq!((*start, *end), (0, 3));
        }
        other => panic!("unexpected command {:?}", other),
    }
    // The sampler settings were not touched by the swap.
    assert_eq!(g.g2d.batch_uv.sampler.filter, gfx_graphics::texture::FilterMethod::Trilinear);
    assert_eq!(g.g2d.buffer_uv.contents, uvs);
}

#[test]
fn second_texture_wins() {
    let mut g = session();
    let a = rgba_texture(1);
    let b = rgba_texture(2);
    let batch = || vec![TexturedBatch { positions: vec![0; 6], uvs: vec![0; 6] }];

    let r = g.draw_textured_triangles(&plain_state(), tint(1), &a, &batch());
    assert_eq!(r, Ok(()));
    assert_eq!(g.g2d.batch_uv.texture, a);

    let r = g.draw_textured_triangles(&plain_state(), tint(1), &b, &batch());
    assert_eq!(r, Ok(()));
    // The binding after the second call is exactly the second texture,
    // and its draw command samples it; the first call's draw kept the first.
    assert_eq!(g.g2d.batch_uv.texture, b);
    assert!(matches!(&g.renderer.commands[2], Command::DrawTextured { texture, .. } if *texture == a));
    assert!(matches!(&g.renderer.commands[5], Command::DrawTextured { texture, .. } if *texture == b));
}

#[test]
fn clear_then_draw_keeps_order() {
    let mut g = session();
    let background = tint(77);
    g.clear(background);
    let r = g.draw_solid_triangles(&plain_state(), tint(5), &vec![vec![0; 6]]);
    assert_eq!(r, Ok(()));

    assert_eq!(g.renderer.commands.len(), 3);
    assert!(matches!(&g.renderer.commands[0], Command::Clear { color } if *color == background));
    assert!(matches!(&g.renderer.commands[1], Command::UpdatePositionBuffer { .. }));
    assert!(matches!(&g.renderer.commands[2], Command::DrawSolid { .. }));
}

#[test]
fn repeated_clear_records_each_color_in_order() {
    let mut g = session();
    g.clear(tint(1));
    g.clear(tint(2));
    assert_eq!(g.renderer.commands.len(), 2);
    assert!(matches!(&g.renderer.commands[0], Command::Clear { color } if *color == tint(1)));
    assert!(matches!(&g.renderer.commands[1], Command::Clear { color } if *color == tint(2)));
}

#[test]
fn culling_stays_disabled_across_overwrites() {
    let mut g = session();
    let hostile_states = [
        DrawState { blend: Some(BlendMode::Alpha), stencil: None, scissor: None, cull_face: CullFace::Back },
        DrawState { blend: None, stencil: Some(StencilMode::Clip { reference: 1 }), scissor: None, cull_face: CullFace::Front },
        DrawState { blend: Some(BlendMode::Add), stencil: None, scissor: None, cull_face: CullFace::Back },
    ];
    for state in &hostile_states {
        let r = g.draw_solid_triangles(state, tint(1), &vec![vec![0; 6]]);
        assert_eq!(r, Ok(()));
        assert_eq!(g.g2d.batch.state.cull_face, CullFace::Nothing);
        // The caller's other settings do pass through.
        assert_eq!(g.g2d.batch.state.blend, state.blend);
        assert_eq!(g.g2d.batch.state.stencil, state.stencil);

        let r = g.draw_textured_triangles(
            state,
            tint(1),
            &rgba_texture(3),
            &vec![TexturedBatch { positions: vec![0; 6], uvs: vec![0; 6] }],
        );
        assert_eq!(r, Ok(()));
        assert_eq!(g.g2d.batch_uv.state.cull_face, CullFace::Nothing);
    }
    // Every submitted draw command carried the disabled culling too.
    for command in &g.renderer.commands {
        match command {
            Command::DrawSolid { state, .. } => assert_eq!(state.cull_face, CullFace::Nothing),
            Command::DrawTextured { state, .. } => assert_eq!(state.cull_face, CullFace::Nothing),
            _ => {}
        }
    }
}

#[test]
fn draw_with_no_batches_only_overwrites_state() {
    let mut g = session();
    let state = DrawState {
        blend: Some(BlendMode::Multiply),
        stencil: None,
        scissor: None,
        cull_face: CullFace::Back,
    };
    let r = g.draw_solid_triangles(&state, tint(8), &vec![]);
    assert_eq!(r, Ok(()));
    // No burst, no command; but the pipeline state and tint were set once,
    // with culling forced off.
    assert!(g.renderer.commands.is_empty());
    assert_eq!(g.g2d.batch.color, tint(8));
    assert_eq!(g.g2d.batch.state.blend, Some(BlendMode::Multiply));
    assert_eq!(g.g2d.batch.state.cull_face, CullFace::Nothing);
}

#[test]
fn empty_batch_draws_empty_range() {
    let mut g = session();
    let r = g.draw_solid_triangles(&plain_state(), tint(1), &vec![vec![]]);
    assert_eq!(r, Ok(()));
    assert_eq!(g.renderer.commands.len(), 2);
    assert!(matches!(&g.renderer.commands[1], Command::DrawSolid { start: 0, end: 0, .. }));
}

#[test]
fn later_batch_violation_reports_nothing_submitted() {
    let mut g = session();
    // The first batch is fine; the second is oversized. The whole call is
    // refused up front and nothing at all is submitted.
    let oversized: Vec<u32> = vec![0; POS_COMPONENTS * BACK_END_MAX_VERTEX_COUNT + 2];
    let r = g.draw_solid_triangles(&plain_state(), tint(1), &vec![vec![0; 6], oversized]);
    assert_eq!(r, Err(DrawError::TooManyVertices));
    assert!(g.renderer.commands.is_empty());
}

#[test]
fn mismatch_takes_precedence_within_a_batch() {
    let mut g = session();
    // One batch that is both mismatched and oversized: the consistency
    // check comes first.
    let long: Vec<u32> = vec![0; POS_COMPONENTS * BACK_END_MAX_VERTEX_COUNT + 2];
    let batch = TexturedBatch { positions: long, uvs: vec![0; 4] };
    let r = g.draw_textured_triangles(&plain_state(), tint(1), &rgba_texture(1), &vec![batch]);
    assert_eq!(r, Err(DrawError::MismatchedVertexCounts));
}
