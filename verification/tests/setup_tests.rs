use gfx_graphics::back_end::{
    CreationError, DeviceCaps, Frame, Gfx2d, GfxGraphics, BACK_END_MAX_VERTEX_COUNT,
    POS_COMPONENTS, UV_COMPONENTS,
};
use gfx_graphics::buffer::GpuBuffer;
use gfx_graphics::command::Renderer;
use gfx_graphics::draw_state::{Color, CullFace, COMPONENT_ONE};
use gfx_graphics::shaders::{bundled_shader_source, GLSL_120, GLSL_150};
use gfx_graphics::texture::{
    placeholder_pixel_bytes, placeholder_texture, FilterMethod, Texture, TextureComponents,
    WrapMode,
};

fn white() -> Color {
    Color { r: COMPONENT_ONE, g: COMPONENT_ONE, b: COMPONENT_ONE, a: COMPONENT_ONE }
}

#[test]
fn construction_picks_exact_tiers() {
    let g = Gfx2d::new(&DeviceCaps { shader_model: GLSL_150 }).unwrap();
    assert_eq!(g.batch.program.vertex_version, GLSL_150);
    assert_eq!(g.batch.program.fragment_version, GLSL_150);
    assert_eq!(g.batch_uv.program.vertex_version, GLSL_150);
    assert_eq!(g.batch_uv.program.fragment_version, GLSL_150);

    let g = Gfx2d::new(&DeviceCaps { shader_model: GLSL_120 }).unwrap();
    assert_eq!(g.batch.program.vertex_version, GLSL_120);
    assert_eq!(g.batch_uv.program.fragment_version, GLSL_120);
}

#[test]
fn construction_falls_through_to_highest_supported() {
    // A device above every variant still takes the highest bundled one.
    let g = Gfx2d::new(&DeviceCaps { shader_model: 430 }).unwrap();
    assert_eq!(g.batch.program.vertex_version, GLSL_150);

    // A device between the two variants takes the lower.
    let g = Gfx2d::new(&DeviceCaps { shader_model: 140 }).unwrap();
    assert_eq!(g.batch.program.vertex_version, GLSL_120);
}

#[test]
fn construction_fails_below_every_variant() {
    let r = Gfx2d::new(&DeviceCaps { shader_model: 110 });
    assert!(matches!(r, Err(CreationError::ShaderModelUnsupported)));
}

#[test]
fn choose_version_picks_highest_compatible() {
    let source = bundled_shader_source();
    assert_eq!(source.choose_version(GLSL_150), Some(GLSL_150));
    assert_eq!(source.choose_version(149), Some(GLSL_120));
    assert_eq!(source.choose_version(GLSL_120), Some(GLSL_120));
    assert_eq!(source.choose_version(119), None);
    assert_eq!(source.choose_version(0), None);
}

#[test]
fn construction_defaults() {
    let g = Gfx2d::new(&DeviceCaps { shader_model: GLSL_150 }).unwrap();

    assert_eq!(g.buffer_pos.capacity, POS_COMPONENTS * BACK_END_MAX_VERTEX_COUNT);
    assert_eq!(g.buffer_uv.capacity, UV_COMPONENTS * BACK_END_MAX_VERTEX_COUNT);
    assert!(g.buffer_pos.contents.is_empty());
    assert!(g.buffer_uv.contents.is_empty());

    assert_eq!(g.batch.color, white());
    assert_eq!(g.batch_uv.color, white());
    assert_eq!(g.batch.state.cull_face, CullFace::Nothing);
    assert_eq!(g.batch_uv.state.cull_face, CullFace::Nothing);
    assert_eq!(g.batch.state.blend, None);
    assert_eq!(g.batch.state.stencil, None);
    assert_eq!(g.batch.state.scissor, None);
    assert_eq!(g.batch.slice.start, 0);
    assert_eq!(g.batch.slice.end, 0);

    let placeholder = g.batch_uv.texture;
    assert_eq!(placeholder, placeholder_texture());
    assert_eq!(placeholder.width, 1);
    assert_eq!(placeholder.height, 1);
    assert_eq!(placeholder.components, TextureComponents::Rgba);

    assert_eq!(g.batch_uv.sampler.filter, FilterMethod::Trilinear);
    assert_eq!(g.batch_uv.sampler.wrap, WrapMode::Clamp);
}

#[test]
fn placeholder_pixel_is_fixed() {
    assert_eq!(placeholder_pixel_bytes(), vec![0x20u8, 0xA0, 0xC0, 0x00]);
}

#[test]
fn session_builds_context_from_frame() {
    let g2d = Gfx2d::new(&DeviceCaps { shader_model: GLSL_150 }).unwrap();
    let frame = Frame { width: 640, height: 480 };
    let (context, session) = g2d.draw(Renderer::new(), frame);
    assert_eq!(context.width, 640);
    assert_eq!(context.height, 480);
    assert_eq!(session.frame, frame);
    assert!(session.renderer.commands.is_empty());
    let (g2d, renderer) = session.finish();
    assert!(renderer.commands.is_empty());
    assert_eq!(g2d.batch.state.cull_face, CullFace::Nothing);
}

#[test]
fn texture_alpha_only_for_rgba() {
    let g2d = Gfx2d::new(&DeviceCaps { shader_model: GLSL_150 }).unwrap();
    let session = GfxGraphics::new(Renderer::new(), Frame { width: 1, height: 1 }, g2d);
    let formats = [
        (TextureComponents::R, false),
        (TextureComponents::Rg, false),
        (TextureComponents::Rgb, false),
        (TextureComponents::Rgba, true),
        (TextureComponents::Depth, false),
        (TextureComponents::Stencil, false),
    ];
    for (components, expected) in formats {
        let texture = Texture { id: 7, width: 4, height: 4, components };
        assert_eq!(session.has_texture_alpha(&texture), expected);
    }
}

#[test]
fn buffer_upload_overwrites_prefix_and_keeps_tail() {
    let mut b = GpuBuffer::new(8);
    b.upload(&vec![1, 2, 3, 4]);
    assert_eq!(b.contents, vec![1, 2, 3, 4]);
    b.upload(&vec![9, 9]);
    assert_eq!(b.contents, vec![9, 9, 3, 4]);
    b.upload(&vec![5, 6, 7, 8, 9, 10]);
    assert_eq!(b.contents, vec![5, 6, 7, 8, 9, 10]);
}
