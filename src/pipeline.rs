//! The rendering context: binding slots for buffers and textures handed out through
//! scoped handles, render-state scopes, and the setup of a pipeline pass.
use vstd::prelude::*;

use crate::commands::{
    emit_if, param_commands, push_if, push_toggle, toggle_commands, Capability, ClearColor,
    GlCommand, ViewportRect,
};
use crate::render_state::RenderState;
use crate::slots::{PoolModel, SlotPool};
use crate::state::FixedState;

verus! {

/// The part of the render target a pass draws to.
#[derive(Copy, Clone, Debug, PartialEq, Eq, Structural)]
pub enum Viewport {
    /// The whole target.
    Whole,
    /// A rectangle of the target.
    Specific { x: u32, y: u32, width: u32, height: u32 },
}

/// How a pipeline pass sets up its target.
#[derive(Copy, Clone, Debug, PartialEq, Eq, Structural)]
pub struct PipelineState {
    pub clear_color: ClearColor,
    pub clear_color_enabled: bool,
    pub clear_depth_enabled: bool,
    pub viewport: Viewport,
    pub srgb_enabled: bool,
}

/// A render target: its native handle and its size in pixels.
#[derive(Copy, Clone, Debug, PartialEq, Eq, Structural)]
pub struct Framebuffer {
    pub handle: u32,
    pub width: u32,
    pub height: u32,
}

/// A pipeline pass that has been set up: the target it draws to and its viewport.
#[derive(Copy, Clone, Debug, PartialEq, Eq, Structural)]
pub struct Pipeline {
    pub framebuffer: u32,
    pub viewport: ViewportRect,
}

/// The viewport rectangle a pass uses on a target.
pub open spec fn viewport_rect(fb: Framebuffer, v: Viewport) -> ViewportRect {
    match v {
        Viewport::Whole => ViewportRect { x: 0, y: 0, width: fb.width, height: fb.height },
        Viewport::Specific { x, y, width, height } => ViewportRect { x, y, width, height },
    }
}

/// The commands that select the target and set its viewport and clear color, each
/// unless already in place.
pub open spec fn target_commands(f: FixedState, fb: Framebuffer, ps: PipelineState) -> Seq<
    GlCommand,
> {
    let rect = viewport_rect(fb, ps.viewport);
    param_commands(f.draw_framebuffer, fb.handle, GlCommand::BindDrawFramebuffer(fb.handle))
        + param_commands(f.viewport, rect, GlCommand::Viewport(rect)) + param_commands(
        f.clear_color,
        ps.clear_color,
        GlCommand::SetClearColor(ps.clear_color),
    )
}

/// The commands that clear the target: scissoring off, so that no stale region limits
/// the clear, the requested clears, then scissoring back on.
pub open spec fn clear_commands(f: FixedState, ps: PipelineState) -> Seq<GlCommand> {
    toggle_commands(f.scissor_enabled, false, Capability::ScissorTest) + emit_if(
        ps.clear_color_enabled || ps.clear_depth_enabled,
        GlCommand::Clear { color: ps.clear_color_enabled, depth: ps.clear_depth_enabled },
    ) + seq![GlCommand::Enable(Capability::ScissorTest)]
}

/// The commands that set up a pass: target, viewport and clear color, the clear, then
/// sRGB correction as requested.
pub open spec fn pipeline_commands(f: FixedState, fb: Framebuffer, ps: PipelineState) -> Seq<
    GlCommand,
> {
    target_commands(f, fb, ps) + clear_commands(f, ps) + toggle_commands(
        f.srgb_enabled,
        ps.srgb_enabled,
        Capability::FramebufferSrgb,
    )
}

/// The configuration after a pass is set up.
pub open spec fn pipeline_applied(f: FixedState, fb: Framebuffer, ps: PipelineState) -> FixedState {
    FixedState {
        draw_framebuffer: Some(fb.handle),
        viewport: Some(viewport_rect(fb, ps.viewport)),
        clear_color: Some(ps.clear_color),
        scissor_enabled: true,
        srgb_enabled: ps.srgb_enabled,
        ..f
    }
}

fn select_target(f: &mut FixedState, fb: Framebuffer, ps: PipelineState, out: &mut Vec<GlCommand>) -> (rect: ViewportRect)
    ensures
        rect == viewport_rect(fb, ps.viewport),
        *final(f) == (FixedState {
            draw_framebuffer: Some(fb.handle),
            viewport: Some(rect),
            clear_color: Some(ps.clear_color),
            ..*old(f)
        }),
        final(out)@ == old(out)@ + target_commands(*old(f), fb, ps),
{
    let fb_changed = match f.draw_framebuffer {
        Some(cur) => cur != fb.handle,
        None => true,
    };
    push_if(fb_changed, GlCommand::BindDrawFramebuffer(fb.handle), out);
    f.draw_framebuffer = Some(fb.handle);

    let rect = match ps.viewport {
        Viewport::Whole => ViewportRect { x: 0, y: 0, width: fb.width, height: fb.height },
        Viewport::Specific { x, y, width, height } => ViewportRect { x, y, width, height },
    };
    let viewport_changed = match f.viewport {
        Some(cur) => cur != rect,
        None => true,
    };
    push_if(viewport_changed, GlCommand::Viewport(rect), out);
    f.viewport = Some(rect);

    let color_changed = match f.clear_color {
        Some(cur) => cur != ps.clear_color,
        None => true,
    };
    push_if(color_changed, GlCommand::SetClearColor(ps.clear_color), out);
    f.clear_color = Some(ps.clear_color);
    assert(out@ =~= old(out)@ + target_commands(*old(f), fb, ps));
    rect
}

fn clear_target(f: &mut FixedState, ps: PipelineState, out: &mut Vec<GlCommand>)
    ensures
        *final(f) == (FixedState { scissor_enabled: true, ..*old(f) }),
        final(out)@ == old(out)@ + clear_commands(*old(f), ps),
{
    push_toggle(f.scissor_enabled, false, Capability::ScissorTest, out);
    push_if(
        ps.clear_color_enabled || ps.clear_depth_enabled,
        GlCommand::Clear { color: ps.clear_color_enabled, depth: ps.clear_depth_enabled },
        out,
    );
    out.push(GlCommand::Enable(Capability::ScissorTest));
    f.scissor_enabled = true;
    assert(out@ =~= old(out)@ + clear_commands(*old(f), ps));
}

/// A buffer bound at a binding point; the point is taken until the handle is released.
pub struct BoundBuffer {
    binding: u32,
}

impl BoundBuffer {
    /// The binding point this handle holds.
    pub closed spec fn slot(&self) -> nat {
        self.binding as nat
    }

    /// The binding point this handle holds.
    pub fn binding(&self) -> (r: u32)
        ensures
            r as nat == self.slot(),
    {
        self.binding
    }
}

/// A texture bound to a texture unit; the unit is taken until the handle is released.
pub struct BoundTexture {
    unit: u32,
}

impl BoundTexture {
    /// The texture unit this handle holds.
    pub closed spec fn slot(&self) -> nat {
        self.unit as nat
    }

    /// The texture unit this handle holds.
    pub fn unit(&self) -> (r: u32)
        ensures
            r as nat == self.slot(),
    {
        self.unit
    }
}

/// The state of one rendering context: its fixed-function configuration and the binding
/// slots of its two resource classes.
pub struct GLState {
    fixed: FixedState,
    buffers: SlotPool,
    textures: SlotPool,
}

impl GLState {
    /// The tracked fixed-function configuration.
    pub closed spec fn fixed_state(&self) -> FixedState {
        self.fixed
    }

    /// The buffer binding points.
    pub closed spec fn buffer_pool(&self) -> PoolModel {
        self.buffers@
    }

    /// The texture units.
    pub closed spec fn texture_pool(&self) -> PoolModel {
        self.textures@
    }

    pub open spec fn wf(&self) -> bool {
        self.buffer_pool().wf() && self.texture_pool().wf()
    }

    /// The tracked fixed-function configuration.
    pub fn fixed(&self) -> (r: FixedState)
        ensures
            r == self.fixed_state(),
    {
        self.fixed
    }

    /// The buffer binding points.
    pub fn buffers(&self) -> (r: &SlotPool)
        ensures
            r@ == self.buffer_pool(),
    {
        &self.buffers
    }

    /// The texture units.
    pub fn textures(&self) -> (r: &SlotPool)
        ensures
            r@ == self.texture_pool(),
    {
        &self.textures
    }

    /// The state of a new context.
    pub fn new() -> (r: GLState)
        ensures
            r.wf(),
            r.fixed_state() == FixedState::initial(),
            r.buffer_pool() == PoolModel::fresh(),
            r.texture_pool() == PoolModel::fresh(),
    {
        GLState { fixed: FixedState::new(), buffers: SlotPool::new(), textures: SlotPool::new() }
    }

    /// Set up a pass on `framebuffer`, appending the hardware calls to `out`.
    pub fn start_pipeline(
        &mut self,
        framebuffer: &Framebuffer,
        pipeline_state: &PipelineState,
        out: &mut Vec<GlCommand>,
    ) -> (r: Pipeline)
        ensures
            final(self).fixed_state() == pipeline_applied(old(self).fixed_state(), *framebuffer, *pipeline_state),
            final(self).buffer_pool() == old(self).buffer_pool(),
            final(self).texture_pool() == old(self).texture_pool(),
            final(out)@ == old(out)@ + pipeline_commands(
                old(self).fixed_state(),
                *framebuffer,
                *pipeline_state,
            ),
            r == (Pipeline {
                framebuffer: framebuffer.handle,
                viewport: viewport_rect(*framebuffer, pipeline_state.viewport),
            }),
    {
        let ghost o0 = out@;
        let ghost f0 = self.fixed;
        let rect = select_target(&mut self.fixed, *framebuffer, *pipeline_state, out);
        let ghost o1 = out@;
        clear_target(&mut self.fixed, *pipeline_state, out);
        let ghost o2 = out@;
        push_toggle(
            self.fixed.srgb_enabled,
            pipeline_state.srgb_enabled,
            Capability::FramebufferSrgb,
            out,
        );
        self.fixed.srgb_enabled = pipeline_state.srgb_enabled;
        proof {
            let a = target_commands(f0, *framebuffer, *pipeline_state);
            let b = clear_commands(f0, *pipeline_state);
            let c = toggle_commands(f0.srgb_enabled, pipeline_state.srgb_enabled, Capability::FramebufferSrgb);
            assert(o0 + a + b + c =~= o0 + (a + b + c));
        }
        Pipeline { framebuffer: framebuffer.handle, viewport: rect }
    }

    /// Bind the buffer with native handle `handle` at a free binding point.
    pub fn bind_buffer(&mut self, handle: u32, out: &mut Vec<GlCommand>) -> (r: BoundBuffer)
        requires
            old(self).wf(),
            old(self).buffer_pool().free.len() > 0 || old(self).buffer_pool().next < u32::MAX,
        ensures
            final(self).wf(),
            final(self).buffer_pool() == old(self).buffer_pool().allocated(),
            final(self).texture_pool() == old(self).texture_pool(),
            final(self).fixed_state() == old(self).fixed_state(),
            r.slot() == old(self).buffer_pool().alloc_slot(),
            !old(self).buffer_pool().is_live(r.slot()),
            final(self).buffer_pool().is_live(r.slot()),
            final(out)@ == old(out)@.push(
                GlCommand::BindBufferBase { handle, binding: r.slot() as u32 },
            ),
    {
        let binding = self.buffers.allocate();
        out.push(GlCommand::BindBufferBase { handle, binding });
        BoundBuffer { binding }
    }

    /// Release a buffer handle: its binding point goes back on the free list. No
    /// hardware call is made; the next occupant overwrites the binding.
    pub fn release_buffer(&mut self, bound: BoundBuffer)
        requires
            old(self).wf(),
            old(self).buffer_pool().is_live(bound.slot()),
        ensures
            final(self).wf(),
            final(self).buffer_pool() == old(self).buffer_pool().released(bound.slot()),
            !final(self).buffer_pool().is_live(bound.slot()),
            final(self).texture_pool() == old(self).texture_pool(),
            final(self).fixed_state() == old(self).fixed_state(),
    {
        self.buffers.release(bound.binding);
    }

    /// Bind the texture with native handle `handle` and kind `target` to a free unit.
    pub fn bind_texture(&mut self, target: u32, handle: u32, out: &mut Vec<GlCommand>) -> (r:
        BoundTexture)
        requires
            old(self).wf(),
            old(self).texture_pool().free.len() > 0 || old(self).texture_pool().next < u32::MAX,
        ensures
            final(self).wf(),
            final(self).texture_pool() == old(self).texture_pool().allocated(),
            final(self).buffer_pool() == old(self).buffer_pool(),
            final(self).fixed_state() == old(self).fixed_state(),
            r.slot() == old(self).texture_pool().alloc_slot(),
            !old(self).texture_pool().is_live(r.slot()),
            final(self).texture_pool().is_live(r.slot()),
            final(out)@ == old(out)@.push(
                GlCommand::BindTexture { target, handle, unit: r.slot() as u32 },
            ),
    {
        let unit = self.textures.allocate();
        out.push(GlCommand::BindTexture { target, handle, unit });
        BoundTexture { unit }
    }

    /// Release a texture handle: its unit goes back on the free list. No hardware call
    /// is made.
    pub fn release_texture(&mut self, bound: BoundTexture)
        requires
            old(self).wf(),
            old(self).texture_pool().is_live(bound.slot()),
        ensures
            final(self).wf(),
            final(self).texture_pool() == old(self).texture_pool().released(bound.slot()),
            !final(self).texture_pool().is_live(bound.slot()),
            final(self).buffer_pool() == old(self).buffer_pool(),
            final(self).fixed_state() == old(self).fixed_state(),
    {
        self.textures.release(bound.unit);
    }

    /// Enter a render-state scope: bring the fixed-function configuration to `rs`.
    pub fn enter_render_state(&mut self, rs: &RenderState, out: &mut Vec<GlCommand>)
        ensures
            final(self).fixed_state() == old(self).fixed_state().render_state_applied(*rs),
            final(self).buffer_pool() == old(self).buffer_pool(),
            final(self).texture_pool() == old(self).texture_pool(),
            final(out)@ == old(out)@ + old(self).fixed_state().render_state_commands(*rs),
            final(self).fixed_state().blending_enabled == rs.blending.is_some(),
            final(self).fixed_state().depth_test_enabled == rs.depth_test.is_some(),
            final(self).fixed_state().face_culling_enabled == rs.face_culling.is_some(),
            final(self).fixed_state().scissor_enabled == rs.scissor_region.is_some(),
    {
        self.fixed.apply_render_state(rs, out);
    }

    /// Make the shader program with native handle `program` the active one.
    pub fn apply_shader_program(&mut self, program: u32, out: &mut Vec<GlCommand>)
        ensures
            final(self).fixed_state() == (FixedState { program: Some(program), ..old(self).fixed_state() }),
            final(self).buffer_pool() == old(self).buffer_pool(),
            final(self).texture_pool() == old(self).texture_pool(),
            final(out)@ == old(out)@ + param_commands(
                old(self).fixed_state().program,
                program,
                GlCommand::UseProgram(program),
            ),
    {
        let changed = match self.fixed.program {
            Some(cur) => cur != program,
            None => true,
        };
        push_if(changed, GlCommand::UseProgram(program), out);
        self.fixed.program = Some(program);
    }
}

} // verus!
