use luminance::blending::{Blending, BlendingMode, Equation, Factor};
use luminance::depth_test::DepthComparison;
use luminance::face_culling::{FaceCulling, FaceCullingMode, FaceCullingOrder};
use luminance::render_state::RenderState;
use luminance::scissor_region::ScissorRegion;

fn additive() -> Blending {
    Blending { equation: Equation::Additive, src: Factor::SrcAlpha, dst: Factor::SrcAlphaComplement }
}

#[test]
fn default_render_state() {
    let rs = RenderState::default();
    assert_eq!(rs.blending(), None);
    assert_eq!(rs.depth_test(), Some(DepthComparison::Less));
    assert_eq!(rs.face_culling(), None);
    assert_eq!(rs.scissor_region(), None);
}

#[test]
fn set_blending_is_combined() {
    let rs = RenderState::default().set_blending(Some(additive()));
    assert_eq!(rs.blending(), Some(BlendingMode::Combined(additive())));
    assert_eq!(rs.depth_test(), Some(DepthComparison::Less));
    let off = rs.set_blending(None);
    assert_eq!(off.blending(), None);
}

#[test]
fn set_blending_separate_keeps_both() {
    let alpha = Blending { equation: Equation::Max, src: Factor::One, dst: Factor::Zero };
    let rs = RenderState::default().set_blending_separate(additive(), alpha);
    assert_eq!(rs.blending(), Some(BlendingMode::Separate { rgb: additive(), alpha }));
}

#[test]
fn setters_touch_one_setting() {
    let fc = FaceCulling { order: FaceCullingOrder::CW, mode: FaceCullingMode::Front };
    let region = ScissorRegion { x: 1, y: 2, width: 3, height: 4 };
    let rs = RenderState::default()
        .set_depth_test(None)
        .set_face_culling(Some(fc))
        .set_scissor_region(Some(region));
    assert_eq!(rs.blending(), None);
    assert_eq!(rs.depth_test(), None);
    assert_eq!(rs.face_culling(), Some(fc));
    assert_eq!(rs.scissor_region(), Some(region));
    let rs = rs.set_depth_test(Some(DepthComparison::GreaterOrEqual));
    assert_eq!(rs.depth_test(), Some(DepthComparison::GreaterOrEqual));
    assert_eq!(rs.face_culling(), Some(fc));
}
