//! Mirror of the context's fixed-function configuration, and the transitions that bring it
//! to a requested render state or pipeline setup with the fewest hardware calls.
use vstd::prelude::*;

use crate::blending::{BlendingMode, Equation, Factor};
use crate::commands::{
    param_commands, push_if, push_toggle, toggle_commands, Capability, ClearColor, GlCommand,
    ViewportRect,
};
use crate::depth_test::DepthComparison;
use crate::face_culling::{FaceCulling, FaceCullingMode, FaceCullingOrder};
use crate::render_state::RenderState;
use crate::scissor_region::ScissorRegion;

verus! {

/// Blending equations currently set for the RGB channels and for alpha.
#[derive(Copy, Clone, Debug, PartialEq, Eq, Structural)]
pub struct BlendEquations {
    pub rgb: Equation,
    pub alpha: Equation,
}

/// Blending factors currently set for the RGB channels and for alpha.
#[derive(Copy, Clone, Debug, PartialEq, Eq, Structural)]
pub struct BlendFactors {
    pub src_rgb: Factor,
    pub dst_rgb: Factor,
    pub src_alpha: Factor,
    pub dst_alpha: Factor,
}

/// What the context's fixed-function configuration is known to be. A flag is the
/// feature's on/off state; a `None` parameter is one whose hardware value is unknown.
#[derive(Copy, Clone, Debug, PartialEq, Eq, Structural)]
pub struct FixedState {
    pub blending_enabled: bool,
    pub blend_equations: Option<BlendEquations>,
    pub blend_factors: Option<BlendFactors>,
    pub depth_test_enabled: bool,
    pub depth_comparison: Option<DepthComparison>,
    pub face_culling_enabled: bool,
    pub face_culling_order: Option<FaceCullingOrder>,
    pub face_culling_mode: Option<FaceCullingMode>,
    pub scissor_enabled: bool,
    pub scissor_region: Option<ScissorRegion>,
    pub srgb_enabled: bool,
    pub draw_framebuffer: Option<u32>,
    pub viewport: Option<ViewportRect>,
    pub clear_color: Option<ClearColor>,
    pub program: Option<u32>,
}

/// The equations and factors that a blending mode sets.
pub open spec fn mode_equations(m: BlendingMode) -> BlendEquations {
    match m {
        BlendingMode::Combined(b) => BlendEquations { rgb: b.equation, alpha: b.equation },
        BlendingMode::Separate { rgb, alpha } => BlendEquations {
            rgb: rgb.equation,
            alpha: alpha.equation,
        },
    }
}

pub open spec fn mode_factors(m: BlendingMode) -> BlendFactors {
    match m {
        BlendingMode::Combined(b) => BlendFactors {
            src_rgb: b.src,
            dst_rgb: b.dst,
            src_alpha: b.src,
            dst_alpha: b.dst,
        },
        BlendingMode::Separate { rgb, alpha } => BlendFactors {
            src_rgb: rgb.src,
            dst_rgb: rgb.dst,
            src_alpha: alpha.src,
            dst_alpha: alpha.dst,
        },
    }
}

/// The hardware entry points a blending mode goes through: the combined ones for
/// combined blending, the separate ones for separate blending.
pub open spec fn mode_equation_command(m: BlendingMode) -> GlCommand {
    match m {
        BlendingMode::Combined(b) => GlCommand::BlendEquation(b.equation),
        BlendingMode::Separate { rgb, alpha } => GlCommand::BlendEquationSeparate {
            rgb: rgb.equation,
            alpha: alpha.equation,
        },
    }
}

pub open spec fn mode_factor_command(m: BlendingMode) -> GlCommand {
    match m {
        BlendingMode::Combined(b) => GlCommand::BlendFunc { src: b.src, dst: b.dst },
        BlendingMode::Separate { rgb, alpha } => GlCommand::BlendFuncSeparate {
            src_rgb: rgb.src,
            dst_rgb: rgb.dst,
            src_alpha: alpha.src,
            dst_alpha: alpha.dst,
        },
    }
}

impl FixedState {
    /// The configuration of a new context: every feature off, parameters unknown.
    pub open spec fn initial() -> FixedState {
        FixedState {
            blending_enabled: false,
            blend_equations: None,
            blend_factors: None,
            depth_test_enabled: false,
            depth_comparison: None,
            face_culling_enabled: false,
            face_culling_order: None,
            face_culling_mode: None,
            scissor_enabled: false,
            scissor_region: None,
            srgb_enabled: false,
            draw_framebuffer: None,
            viewport: None,
            clear_color: None,
            program: None,
        }
    }

    pub open spec fn blending_commands(self, b: Option<BlendingMode>) -> Seq<GlCommand> {
        match b {
            Some(m) => toggle_commands(self.blending_enabled, true, Capability::Blend)
                + param_commands(self.blend_equations, mode_equations(m), mode_equation_command(m))
                + param_commands(self.blend_factors, mode_factors(m), mode_factor_command(m)),
            None => toggle_commands(self.blending_enabled, false, Capability::Blend),
        }
    }

    pub open spec fn blending_applied(self, b: Option<BlendingMode>) -> FixedState {
        match b {
            Some(m) => FixedState {
                blending_enabled: true,
                blend_equations: Some(mode_equations(m)),
                blend_factors: Some(mode_factors(m)),
                ..self
            },
            None => FixedState { blending_enabled: false, ..self },
        }
    }

    pub open spec fn depth_commands(self, d: Option<DepthComparison>) -> Seq<GlCommand> {
        match d {
            Some(c) => toggle_commands(self.depth_test_enabled, true, Capability::DepthTest)
                + param_commands(self.depth_comparison, c, GlCommand::DepthFunc(c)),
            None => toggle_commands(self.depth_test_enabled, false, Capability::DepthTest),
        }
    }

    pub open spec fn depth_applied(self, d: Option<DepthComparison>) -> FixedState {
        match d {
            Some(c) => FixedState {
                depth_test_enabled: true,
                depth_comparison: Some(c),
                ..self
            },
            None => FixedState { depth_test_enabled: false, ..self },
        }
    }

    pub open spec fn culling_commands(self, fc: Option<FaceCulling>) -> Seq<GlCommand> {
        match fc {
            Some(c) => toggle_commands(self.face_culling_enabled, true, Capability::CullFace)
                + param_commands(self.face_culling_order, c.order, GlCommand::FrontFace(c.order))
                + param_commands(self.face_culling_mode, c.mode, GlCommand::CullFace(c.mode)),
            None => toggle_commands(self.face_culling_enabled, false, Capability::CullFace),
        }
    }

    pub open spec fn culling_applied(self, fc: Option<FaceCulling>) -> FixedState {
        match fc {
            Some(c) => FixedState {
                face_culling_enabled: true,
                face_culling_order: Some(c.order),
                face_culling_mode: Some(c.mode),
                ..self
            },
            None => FixedState { face_culling_enabled: false, ..self },
        }
    }

    pub open spec fn scissor_commands(self, s: Option<ScissorRegion>) -> Seq<GlCommand> {
        match s {
            Some(r) => toggle_commands(self.scissor_enabled, true, Capability::ScissorTest)
                + param_commands(self.scissor_region, r, GlCommand::Scissor(r)),
            None => toggle_commands(self.scissor_enabled, false, Capability::ScissorTest),
        }
    }

    pub open spec fn scissor_applied(self, s: Option<ScissorRegion>) -> FixedState {
        match s {
            Some(r) => FixedState { scissor_enabled: true, scissor_region: Some(r), ..self },
            None => FixedState { scissor_enabled: false, ..self },
        }
    }

    /// The configuration after a render state is applied.
    pub open spec fn render_state_applied(self, rs: RenderState) -> FixedState {
        self.blending_applied(rs.blending).depth_applied(rs.depth_test).culling_applied(
            rs.face_culling,
        ).scissor_applied(rs.scissor_region)
    }

    /// The commands that apply a render state: for each of the four settings in turn,
    /// only the calls whose effect is not already in place.
    pub open spec fn render_state_commands(self, rs: RenderState) -> Seq<GlCommand> {
        let s1 = self.blending_applied(rs.blending);
        let s2 = s1.depth_applied(rs.depth_test);
        let s3 = s2.culling_applied(rs.face_culling);
        self.blending_commands(rs.blending) + s1.depth_commands(rs.depth_test)
            + s2.culling_commands(rs.face_culling) + s3.scissor_commands(rs.scissor_region)
    }

    /// The configuration of a new context.
    pub fn new() -> (r: FixedState)
        ensures
            r == FixedState::initial(),
    {
        FixedState {
            blending_enabled: false,
            blend_equations: None,
            blend_factors: None,
            depth_test_enabled: false,
            depth_comparison: None,
            face_culling_enabled: false,
            face_culling_order: None,
            face_culling_mode: None,
            scissor_enabled: false,
            scissor_region: None,
            srgb_enabled: false,
            draw_framebuffer: None,
            viewport: None,
            clear_color: None,
            program: None,
        }
    }

    fn apply_blending(&mut self, b: Option<BlendingMode>, out: &mut Vec<GlCommand>)
        ensures
            *final(self) == old(self).blending_applied(b),
            final(out)@ == old(out)@ + old(self).blending_commands(b),
    {
        match b {
            Some(m) => {
                push_toggle(self.blending_enabled, true, Capability::Blend, out);
                self.blending_enabled = true;
                let (eqs, eq_cmd, factors, factor_cmd) = match m {
                    BlendingMode::Combined(c) => (
                        BlendEquations { rgb: c.equation, alpha: c.equation },
                        GlCommand::BlendEquation(c.equation),
                        BlendFactors { src_rgb: c.src, dst_rgb: c.dst, src_alpha: c.src, dst_alpha: c.dst },
                        GlCommand::BlendFunc { src: c.src, dst: c.dst },
                    ),
                    BlendingMode::Separate { rgb, alpha } => (
                        BlendEquations { rgb: rgb.equation, alpha: alpha.equation },
                        GlCommand::BlendEquationSeparate { rgb: rgb.equation, alpha: alpha.equation },
                        BlendFactors {
                            src_rgb: rgb.src,
                            dst_rgb: rgb.dst,
                            src_alpha: alpha.src,
                            dst_alpha: alpha.dst,
                        },
                        GlCommand::BlendFuncSeparate {
                            src_rgb: rgb.src,
                            dst_rgb: rgb.dst,
                            src_alpha: alpha.src,
                            dst_alpha: alpha.dst,
                        },
                    ),
                };
                let eq_changed = match self.blend_equations {
                    Some(cur) => cur != eqs,
                    None => true,
                };
                push_if(eq_changed, eq_cmd, out);
                self.blend_equations = Some(eqs);
                let factors_changed = match self.blend_factors {
                    Some(cur) => cur != factors,
                    None => true,
                };
                push_if(factors_changed, factor_cmd, out);
                self.blend_factors = Some(factors);
                assert(out@ =~= old(out)@ + old(self).blending_commands(b));
            },
            None => {
                push_toggle(self.blending_enabled, false, Capability::Blend, out);
                self.blending_enabled = false;
            },
        }
    }

    fn apply_depth_test(&mut self, d: Option<DepthComparison>, out: &mut Vec<GlCommand>)
        ensures
            *final(self) == old(self).depth_applied(d),
            final(out)@ == old(out)@ + old(self).depth_commands(d),
    {
        match d {
            Some(c) => {
                push_toggle(self.depth_test_enabled, true, Capability::DepthTest, out);
                self.depth_test_enabled = true;
                let changed = match self.depth_comparison {
                    Some(cur) => cur != c,
                    None => true,
                };
                push_if(changed, GlCommand::DepthFunc(c), out);
                self.depth_comparison = Some(c);
                assert(out@ =~= old(out)@ + old(self).depth_commands(d));
            },
            None => {
                push_toggle(self.depth_test_enabled, false, Capability::DepthTest, out);
                self.depth_test_enabled = false;
            },
        }
    }

    fn apply_face_culling(&mut self, fc: Option<FaceCulling>, out: &mut Vec<GlCommand>)
        ensures
            *final(self) == old(self).culling_applied(fc),
            final(out)@ == old(out)@ + old(self).culling_commands(fc),
    {
        match fc {
            Some(c) => {
                push_toggle(self.face_culling_enabled, true, Capability::CullFace, out);
                self.face_culling_enabled = true;
                let order_changed = match self.face_culling_order {
                    Some(cur) => cur != c.order,
                    None => true,
                };
                push_if(order_changed, GlCommand::FrontFace(c.order), out);
                self.face_culling_order = Some(c.order);
                let mode_changed = match self.face_culling_mode {
                    Some(cur) => cur != c.mode,
                    None => true,
                };
                push_if(mode_changed, GlCommand::CullFace(c.mode), out);
                self.face_culling_mode = Some(c.mode);
                assert(out@ =~= old(out)@ + old(self).culling_commands(fc));
            },
            None => {
                push_toggle(self.face_culling_enabled, false, Capability::CullFace, out);
                self.face_culling_enabled = false;
            },
        }
    }

    fn apply_scissor(&mut self, s: Option<ScissorRegion>, out: &mut Vec<GlCommand>)
        ensures
            *final(self) == old(self).scissor_applied(s),
            final(out)@ == old(out)@ + old(self).scissor_commands(s),
    {
        match s {
            Some(r) => {
                push_toggle(self.scissor_enabled, true, Capability::ScissorTest, out);
                self.scissor_enabled = true;
                let changed = match self.scissor_region {
                    Some(cur) => cur != r,
                    None => true,
                };
                push_if(changed, GlCommand::Scissor(r), out);
                self.scissor_region = Some(r);
                assert(out@ =~= old(out)@ + old(self).scissor_commands(s));
            },
            None => {
                push_toggle(self.scissor_enabled, false, Capability::ScissorTest, out);
                self.scissor_enabled = false;
            },
        }
    }

    /// Bring the configuration to `rs`, appending the hardware calls this takes to `out`.
    #[verifier::rlimit(50)]
    pub fn apply_render_state(&mut self, rs: &RenderState, out: &mut Vec<GlCommand>)
        ensures
            *final(self) == old(self).render_state_applied(*rs),
            final(out)@ == old(out)@ + old(self).render_state_commands(*rs),
            final(self).blending_enabled == rs.blending.is_some(),
            final(self).depth_test_enabled == rs.depth_test.is_some(),
            final(self).face_culling_enabled == rs.face_culling.is_some(),
            final(self).scissor_enabled == rs.scissor_region.is_some(),
    {
        let ghost f0 = *self;
        let ghost o0 = out@;
        self.apply_blending(rs.blending, out);
        let ghost a = f0.blending_commands(rs.blending);
        let ghost f1 = *self;
        self.apply_depth_test(rs.depth_test, out);
        let ghost b = f1.depth_commands(rs.depth_test);
        let ghost f2 = *self;
        self.apply_face_culling(rs.face_culling, out);
        let ghost c = f2.culling_commands(rs.face_culling);
        let ghost f3 = *self;
        self.apply_scissor(rs.scissor_region, out);
        let ghost d = f3.scissor_commands(rs.scissor_region);
        assert(out@ == o0 + a + b + c + d);
        assert(f0.render_state_commands(*rs) == a + b + c + d);
        assert(o0 + a + b + c + d =~= o0 + (a + b + c + d));
    }
}

/// Applying the same render state twice in a row leaves the configuration as applying it
/// once does, and the second application issues no hardware call.
pub proof fn lemma_render_state_idempotent(f: FixedState, rs: RenderState)
    ensures
        f.render_state_applied(rs).render_state_applied(rs) == f.render_state_applied(rs),
        f.render_state_applied(rs).render_state_commands(rs) == Seq::<GlCommand>::empty(),
{
    let g = f.render_state_applied(rs);
    assert(g.render_state_commands(rs) =~= Seq::<GlCommand>::empty());
}

/// A setting absent from a render state leaves its feature disabled, whatever the
/// configuration was before.
pub proof fn lemma_absent_setting_disabled(f: FixedState, rs: RenderState)
    ensures
        rs.blending.is_none() ==> !f.render_state_applied(rs).blending_enabled,
        rs.depth_test.is_none() ==> !f.render_state_applied(rs).depth_test_enabled,
        rs.face_culling.is_none() ==> !f.render_state_applied(rs).face_culling_enabled,
        rs.scissor_region.is_none() ==> !f.render_state_applied(rs).scissor_enabled,
{
}

} // verus!
