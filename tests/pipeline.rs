use luminance::blending::{Blending, Equation, Factor};
use luminance::commands::{Capability, ClearColor, GlCommand, ViewportRect};
use luminance::depth_test::DepthComparison;
use luminance::face_culling::{FaceCulling, FaceCullingMode, FaceCullingOrder};
use luminance::pipeline::{Framebuffer, GLState, PipelineState, Viewport};
use luminance::render_state::RenderState;
use luminance::scissor_region::ScissorRegion;

fn black() -> ClearColor {
    ClearColor {
        red: 0.0f32.to_bits(),
        green: 0.0f32.to_bits(),
        blue: 0.0f32.to_bits(),
        alpha: 1.0f32.to_bits(),
    }
}

fn frame_state() -> PipelineState {
    PipelineState {
        clear_color: black(),
        clear_color_enabled: true,
        clear_depth_enabled: true,
        viewport: Viewport::Whole,
        srgb_enabled: false,
    }
}

fn target() -> Framebuffer {
    Framebuffer { handle: 0, width: 800, height: 600 }
}

fn bare() -> RenderState {
    RenderState::default().set_depth_test(None)
}

#[test]
fn basic_frame() {
    let mut st = GLState::new();
    let mut out = Vec::new();
    let p = st.start_pipeline(&target(), &frame_state(), &mut out);
    let rect = ViewportRect { x: 0, y: 0, width: 800, height: 600 };
    assert_eq!(p.viewport, rect);
    assert_eq!(
        out,
        vec![
            GlCommand::BindDrawFramebuffer(0),
            GlCommand::Viewport(rect),
            GlCommand::SetClearColor(black()),
            GlCommand::Clear { color: true, depth: true },
            GlCommand::Enable(Capability::ScissorTest),
        ]
    );
    assert!(st.fixed().scissor_enabled);
    assert!(!st.fixed().srgb_enabled);
}

#[test]
fn second_frame_disables_scissor_around_clear() {
    let mut st = GLState::new();
    let mut out = Vec::new();
    st.start_pipeline(&target(), &frame_state(), &mut out);
    out.clear();
    st.start_pipeline(&target(), &frame_state(), &mut out);
    assert_eq!(
        out,
        vec![
            GlCommand::Disable(Capability::ScissorTest),
            GlCommand::Clear { color: true, depth: true },
            GlCommand::Enable(Capability::ScissorTest),
        ]
    );
}

#[test]
fn specific_viewport_no_clear_srgb() {
    let mut st = GLState::new();
    let mut out = Vec::new();
    let ps = PipelineState {
        clear_color: black(),
        clear_color_enabled: false,
        clear_depth_enabled: false,
        viewport: Viewport::Specific { x: 5, y: 6, width: 7, height: 8 },
        srgb_enabled: true,
    };
    let fb = Framebuffer { handle: 3, width: 100, height: 100 };
    st.start_pipeline(&fb, &ps, &mut out);
    assert_eq!(
        out,
        vec![
            GlCommand::BindDrawFramebuffer(3),
            GlCommand::Viewport(ViewportRect { x: 5, y: 6, width: 7, height: 8 }),
            GlCommand::SetClearColor(black()),
            GlCommand::Enable(Capability::ScissorTest),
            GlCommand::Enable(Capability::FramebufferSrgb),
        ]
    );
}

#[test]
fn color_only_clear() {
    let mut st = GLState::new();
    let mut out = Vec::new();
    let ps = PipelineState { clear_depth_enabled: false, ..frame_state() };
    st.start_pipeline(&target(), &ps, &mut out);
    assert!(out.contains(&GlCommand::Clear { color: true, depth: false }));
}

#[test]
fn separate_blending() {
    let mut st = GLState::new();
    let mut out = Vec::new();
    let rgb = Blending { equation: Equation::Additive, src: Factor::SrcAlpha, dst: Factor::SrcAlphaComplement };
    let alpha = Blending { equation: Equation::Additive, src: Factor::One, dst: Factor::Zero };
    let rs = bare().set_blending_separate(rgb, alpha);
    st.enter_render_state(&rs, &mut out);
    assert_eq!(
        out,
        vec![
            GlCommand::Enable(Capability::Blend),
            GlCommand::BlendEquationSeparate { rgb: Equation::Additive, alpha: Equation::Additive },
            GlCommand::BlendFuncSeparate {
                src_rgb: Factor::SrcAlpha,
                dst_rgb: Factor::SrcAlphaComplement,
                src_alpha: Factor::One,
                dst_alpha: Factor::Zero,
            },
        ]
    );
    assert!(!out.iter().any(|c| matches!(c, GlCommand::BlendEquation(_) | GlCommand::BlendFunc { .. })));
}

#[test]
fn combined_blending() {
    let mut st = GLState::new();
    let mut out = Vec::new();
    let b = Blending { equation: Equation::Subtract, src: Factor::DstAlpha, dst: Factor::One };
    st.enter_render_state(&bare().set_blending(Some(b)), &mut out);
    assert_eq!(
        out,
        vec![
            GlCommand::Enable(Capability::Blend),
            GlCommand::BlendEquation(Equation::Subtract),
            GlCommand::BlendFunc { src: Factor::DstAlpha, dst: Factor::One },
        ]
    );
}

#[test]
fn scissor_round_trip() {
    let mut st = GLState::new();
    let mut out = Vec::new();
    let region = ScissorRegion { x: 10, y: 20, width: 100, height: 50 };
    st.enter_render_state(&bare().set_scissor_region(Some(region)), &mut out);
    assert_eq!(out, vec![GlCommand::Enable(Capability::ScissorTest), GlCommand::Scissor(region)]);
    out.clear();
    st.enter_render_state(&bare(), &mut out);
    assert_eq!(out, vec![GlCommand::Disable(Capability::ScissorTest)]);
    assert!(!st.fixed().scissor_enabled);
    out.clear();
    st.start_pipeline(&target(), &frame_state(), &mut out);
    let clear = out.iter().position(|c| matches!(c, GlCommand::Clear { .. })).unwrap();
    assert!(!out[..clear].contains(&GlCommand::Enable(Capability::ScissorTest)));
    assert!(!out.iter().any(|c| matches!(c, GlCommand::Scissor(_))));
}

#[test]
fn buffer_binding_reuse() {
    let mut st = GLState::new();
    let mut out = Vec::new();
    let b0 = st.bind_buffer(10, &mut out);
    let b1 = st.bind_buffer(11, &mut out);
    let b2 = st.bind_buffer(12, &mut out);
    assert_eq!((b0.binding(), b1.binding(), b2.binding()), (0, 1, 2));
    st.release_buffer(b1);
    let b3 = st.bind_buffer(13, &mut out);
    assert_eq!(b3.binding(), 1);
    assert_eq!(out.last(), Some(&GlCommand::BindBufferBase { handle: 13, binding: 1 }));
    assert_eq!(out.len(), 4);
}

#[test]
fn texture_units_independent_of_buffers() {
    let mut st = GLState::new();
    let mut out = Vec::new();
    let b = st.bind_buffer(1, &mut out);
    let t0 = st.bind_texture(0x0DE1, 7, &mut out);
    let t1 = st.bind_texture(0x0DE1, 8, &mut out);
    assert_eq!(b.binding(), 0);
    assert_eq!(t0.unit(), 0);
    assert_eq!(t1.unit(), 1);
    assert_eq!(out[2], GlCommand::BindTexture { target: 0x0DE1, handle: 8, unit: 1 });
    st.release_texture(t0);
    st.release_texture(t1);
    assert_eq!(st.textures().free_count(), 2);
    assert_eq!(st.buffers().free_count(), 0);
    let t2 = st.bind_texture(0x0DE1, 9, &mut out);
    assert_eq!(t2.unit(), 1);
}

#[test]
fn reapplying_state_is_idempotent() {
    let mut st = GLState::new();
    let mut out = Vec::new();
    let rs = RenderState::default()
        .set_face_culling(Some(FaceCulling { order: FaceCullingOrder::CCW, mode: FaceCullingMode::Back }))
        .set_scissor_region(Some(ScissorRegion { x: 0, y: 0, width: 4, height: 4 }));
    st.enter_render_state(&rs, &mut out);
    let once = st.fixed();
    assert_eq!(out.len(), 7);
    out.clear();
    st.enter_render_state(&rs, &mut out);
    assert_eq!(st.fixed(), once);
    assert!(out.is_empty());
}

#[test]
fn absent_settings_are_disabled() {
    let mut st = GLState::new();
    let mut out = Vec::new();
    let full = RenderState::default()
        .set_blending(Some(Blending { equation: Equation::Max, src: Factor::One, dst: Factor::One }))
        .set_face_culling(Some(FaceCulling { order: FaceCullingOrder::CW, mode: FaceCullingMode::Both }))
        .set_scissor_region(Some(ScissorRegion { x: 1, y: 1, width: 1, height: 1 }));
    st.enter_render_state(&full, &mut out);
    assert!(st.fixed().blending_enabled && st.fixed().depth_test_enabled);
    assert!(st.fixed().face_culling_enabled && st.fixed().scissor_enabled);
    out.clear();
    st.enter_render_state(&bare(), &mut out);
    assert!(!st.fixed().blending_enabled);
    assert!(!st.fixed().depth_test_enabled);
    assert!(!st.fixed().face_culling_enabled);
    assert!(!st.fixed().scissor_enabled);
    assert_eq!(out.len(), 4);
}

#[test]
fn depth_comparison_change_only() {
    let mut st = GLState::new();
    let mut out = Vec::new();
    st.enter_render_state(&RenderState::default(), &mut out);
    assert_eq!(out, vec![GlCommand::Enable(Capability::DepthTest), GlCommand::DepthFunc(DepthComparison::Less)]);
    out.clear();
    st.enter_render_state(&RenderState::default().set_depth_test(Some(DepthComparison::Always)), &mut out);
    assert_eq!(out, vec![GlCommand::DepthFunc(DepthComparison::Always)]);
}

#[test]
fn shader_program_switch_is_cached() {
    let mut st = GLState::new();
    let mut out = Vec::new();
    st.apply_shader_program(5, &mut out);
    st.apply_shader_program(5, &mut out);
    st.apply_shader_program(6, &mut out);
    assert_eq!(out, vec![GlCommand::UseProgram(5), GlCommand::UseProgram(6)]);
}
