//! Hardware commands: the calls the context must issue, as plain values.
use vstd::prelude::*;

use crate::blending::{Equation, Factor};
use crate::depth_test::DepthComparison;
use crate::face_culling::{FaceCullingMode, FaceCullingOrder};
use crate::scissor_region::ScissorRegion;

verus! {

/// A fixed-function feature that can be switched on and off.
#[derive(Copy, Clone, Debug, PartialEq, Eq, Structural)]
pub enum Capability {
    Blend,
    DepthTest,
    CullFace,
    ScissorTest,
    FramebufferSrgb,
}

/// A rectangle of the render target, in pixels.
#[derive(Copy, Clone, Debug, PartialEq, Eq, Structural)]
pub struct ViewportRect {
    pub x: u32,
    pub y: u32,
    pub width: u32,
    pub height: u32,
}

/// An RGBA clear color, each channel held as the bit pattern of a single-precision float.
#[derive(Copy, Clone, Debug, PartialEq, Eq, Structural)]
pub struct ClearColor {
    pub red: u32,
    pub green: u32,
    pub blue: u32,
    pub alpha: u32,
}

/// One call into the graphics context.
#[derive(Copy, Clone, Debug, PartialEq, Eq, Structural)]
pub enum GlCommand {
    Enable(Capability),
    Disable(Capability),
    BindDrawFramebuffer(u32),
    Viewport(ViewportRect),
    SetClearColor(ClearColor),
    /// Clear the color buffer, the depth buffer, or both.
    Clear { color: bool, depth: bool },
    /// One equation for all channels.
    BlendEquation(Equation),
    /// Equations for the RGB channels and for alpha.
    BlendEquationSeparate { rgb: Equation, alpha: Equation },
    /// One source/destination factor pair for all channels.
    BlendFunc { src: Factor, dst: Factor },
    /// Factor pairs for the RGB channels and for alpha.
    BlendFuncSeparate { src_rgb: Factor, dst_rgb: Factor, src_alpha: Factor, dst_alpha: Factor },
    DepthFunc(DepthComparison),
    FrontFace(FaceCullingOrder),
    CullFace(FaceCullingMode),
    Scissor(ScissorRegion),
    /// Bind the buffer with this native handle at a uniform-buffer binding point.
    BindBufferBase { handle: u32, binding: u32 },
    /// Make `unit` the active texture unit and bind the texture to it.
    BindTexture { target: u32, handle: u32, unit: u32 },
    UseProgram(u32),
}

/// The command, if `changed`, else nothing.
pub open spec fn emit_if(changed: bool, cmd: GlCommand) -> Seq<GlCommand> {
    if changed {
        seq![cmd]
    } else {
        Seq::empty()
    }
}

/// The command that sets a cached parameter to `v`, unless the cache already holds `v`.
pub open spec fn param_commands<T>(cached: Option<T>, v: T, cmd: GlCommand) -> Seq<GlCommand> {
    emit_if(cached != Some(v), cmd)
}

/// The command that switches a feature from `enabled` to `want`, if they differ.
pub open spec fn toggle_commands(enabled: bool, want: bool, cap: Capability) -> Seq<GlCommand> {
    emit_if(
        enabled != want,
        if want {
            GlCommand::Enable(cap)
        } else {
            GlCommand::Disable(cap)
        },
    )
}

/// Append `cmd` when `changed`.
pub fn push_if(changed: bool, cmd: GlCommand, out: &mut Vec<GlCommand>)
    ensures
        final(out)@ == old(out)@ + emit_if(changed, cmd),
{
    if changed {
        out.push(cmd);
    }
    assert(out@ =~= old(out)@ + emit_if(changed, cmd));
}

/// Append the command that switches `cap` from `enabled` to `want`, if they differ.
pub fn push_toggle(enabled: bool, want: bool, cap: Capability, out: &mut Vec<GlCommand>)
    ensures
        final(out)@ == old(out)@ + toggle_commands(enabled, want, cap),
{
    let cmd = if want {
        GlCommand::Enable(cap)
    } else {
        GlCommand::Disable(cap)
    };
    push_if(enabled != want, cmd, out);
}

} // verus!
