//! The event-driven render loop.
//!
//! The loop is a state machine: it receives one window event at a time on a
//! single thread and answers with the actions the surrounding program must
//! perform, in order. A resize updates the surface configuration and the
//! aspect ratio and asks for the surface to be reconfigured before any
//! further frame; a redraw request yields exactly one frame plan (one
//! command buffer, one render pass, one six-vertex draw) and sustains the
//! loop by asking for the next redraw; a close request terminates the loop,
//! after which no event produces any action.
//!
//! The aspect ratio travels as the bit pattern of a 32-bit float; the
//! caller computes it as width over height when it reports a resize, so
//! that no float arithmetic lives in the loop itself.

use vstd::prelude::*;

use crate::uniform::FrameUniformState;

verus! {

/// Whether the loop still accepts events or has been closed.
#[derive(Clone, Copy, PartialEq, Eq, Structural, Debug)]
pub enum Phase {
    /// Waiting for the next window event.
    Idle,
    /// The close request was seen; no further frame is issued.
    Terminated,
}

/// The surface configuration: current size plus the format and presentation
/// mode negotiated at startup, both carried as opaque codes. Resizing
/// changes the size only; format and presentation mode stay fixed for the
/// process lifetime.
#[derive(Clone, Copy, PartialEq, Eq, Structural, Debug)]
pub struct SurfaceConfig {
    /// Width in physical pixels; must track the window's current size.
    pub width: u32,
    /// Height in physical pixels; must track the window's current size.
    pub height: u32,
    /// Opaque code of the negotiated pixel format.
    pub format: u32,
    /// Opaque code of the presentation mode.
    pub present_mode: u32,
}

/// A window event as the loop sees it, already reduced to plain values.
/// A resize carries the recomputed aspect ratio (width over height as a
/// 32-bit float) beside the new size.
#[derive(Clone, Copy, PartialEq, Eq, Structural, Debug)]
pub enum LoopEvent {
    CloseRequested,
    Resized { width: u32, height: u32, aspect_bits: u32 },
    RedrawRequested,
    /// Any event the loop does not react to.
    Other,
}

/// One non-indexed draw: a vertex range and an instance range.
#[derive(Clone, Copy, PartialEq, Eq, Structural, Debug)]
pub struct DrawCall {
    pub first_vertex: u32,
    pub vertex_count: u32,
    pub first_instance: u32,
    pub instance_count: u32,
}

/// A color as four 8-bit channels.
#[derive(Clone, Copy, PartialEq, Eq, Structural, Debug)]
pub struct Rgba {
    pub red: u8,
    pub green: u8,
    pub blue: u8,
    pub alpha: u8,
}

/// One render pass: clear the single color attachment to a fixed color,
/// store it, bind the one binding set, and run the listed draws.
pub struct RenderPassPlan {
    /// The clear color of the color attachment's load operation.
    pub clear_color: Rgba,
    /// The slot the binding set is bound at.
    pub bind_group_slot: u32,
    /// The draws recorded inside the pass, in order.
    pub draws: Vec<DrawCall>,
}

/// Everything one frame must do, as plain values: which size the acquired
/// texture must have, what to write into the uniform buffer, and the
/// passes of the single command buffer to submit and present.
pub struct FramePlan {
    /// Width the acquired surface texture must have.
    pub acquire_width: u32,
    /// Height the acquired surface texture must have.
    pub acquire_height: u32,
    /// Byte offset of the uniform write into the uniform buffer.
    pub uniform_offset: u64,
    /// The exact bytes to write into the uniform buffer.
    pub uniform_bytes: Vec<u8>,
    /// The render passes of the one command buffer, in order.
    pub passes: Vec<RenderPassPlan>,
}

/// What the surrounding program must perform after one event, in order.
pub enum LoopAction {
    /// Reconfigure the surface to the given size before the next frame.
    Reconfigure { width: u32, height: u32 },
    /// Ask the window system for a future redraw.
    RequestRedraw,
    /// Acquire a texture, upload the uniform bytes, record, submit and
    /// present exactly as the plan says.
    SubmitFrame(FramePlan),
    /// Leave the event loop.
    Exit,
}

/// The render loop's state: its phase, the surface configuration, the size
/// the surface was last configured with, and the current uniform value.
pub struct RenderLoop {
    pub phase: Phase,
    pub config: SurfaceConfig,
    /// Width the surface was last configured with.
    pub surface_width: u32,
    /// Height the surface was last configured with.
    pub surface_height: u32,
    pub uniform: FrameUniformState,
}

/// The state after a resize to `width` x `height`: the configuration and
/// the surface take the new size, the aspect ratio is replaced, and
/// everything else is kept.
pub open spec fn after_resize(s: RenderLoop, width: u32, height: u32, aspect_bits: u32) -> RenderLoop {
    RenderLoop {
        phase: s.phase,
        config: SurfaceConfig { width, height, ..s.config },
        surface_width: width,
        surface_height: height,
        uniform: FrameUniformState { time_bits: s.uniform.time_bits, aspect_bits },
    }
}

/// The uniform value a frame uploads: the elapsed time is pinned to zero
/// in this design; the aspect ratio is whatever the last resize left.
pub open spec fn frame_uniform(s: RenderLoop) -> FrameUniformState {
    FrameUniformState { time_bits: 0, aspect_bits: s.uniform.aspect_bits }
}

/// The state after one frame: only the stored uniform value changes, to
/// exactly what the frame uploaded.
pub open spec fn after_redraw(s: RenderLoop) -> RenderLoop {
    RenderLoop { uniform: frame_uniform(s), ..s }
}

/// The full-screen quad: six vertices, one instance, generated inside the
/// shading program from the vertex index alone.
pub open spec fn quad_draw() -> DrawCall {
    DrawCall { first_vertex: 0, vertex_count: 6, first_instance: 0, instance_count: 1 }
}

/// The fixed background color the color attachment is cleared to.
pub open spec fn background() -> Rgba {
    Rgba { red: 0, green: 0, blue: 0, alpha: 255 }
}

/// What a correct frame plan for state `s` is: the acquired texture has
/// the surface's configured size, the uniform write is the wire image of
/// the frame's uniform value at offset 0, and the one command buffer holds
/// one render pass that clears to the background, binds slot 0, and draws
/// the quad once.
pub open spec fn is_frame_plan_for(plan: FramePlan, s: RenderLoop) -> bool {
    &&& plan.acquire_width == s.surface_width
    &&& plan.acquire_height == s.surface_height
    &&& plan.uniform_offset == 0
    &&& plan.uniform_bytes@ == frame_uniform(s).wire_bytes()
    &&& plan.passes@.len() == 1
    &&& plan.passes@[0].clear_color == background()
    &&& plan.passes@[0].bind_group_slot == 0
    &&& plan.passes@[0].draws@.len() == 1
    &&& plan.passes@[0].draws@[0] == quad_draw()
}

/// What handling a redraw request in state `s` yields: first the request
/// for the next redraw (the loop is self-sustaining), then exactly one
/// submitted frame, planned for `s`.
pub open spec fn is_redraw_step(actions: Seq<LoopAction>, s: RenderLoop) -> bool {
    &&& actions.len() == 2
    &&& actions[0] is RequestRedraw
    &&& actions[1] matches LoopAction::SubmitFrame(plan) && is_frame_plan_for(plan, s)
}

/// What handling a resize in state `s` yields: the surface is reconfigured
/// to the new size before anything else, then a redraw is requested.
pub open spec fn is_resize_step(actions: Seq<LoopAction>, width: u32, height: u32) -> bool {
    &&& actions.len() == 2
    &&& actions[0] matches LoopAction::Reconfigure { width: w, height: h } && w == width && h == height
    &&& actions[1] is RequestRedraw
}

impl RenderLoop {
    /// A fresh loop for a window of the given physical size, with the
    /// given negotiated configuration codes and initial aspect ratio.
    pub fn init(width: u32, height: u32, format: u32, present_mode: u32, aspect_bits: u32) -> (s: RenderLoop)
        ensures
            s.phase is Idle,
            s.config == (SurfaceConfig { width, height, format, present_mode }),
            s.surface_width == width,
            s.surface_height == height,
            s.uniform == (FrameUniformState { time_bits: 0, aspect_bits }),
    {
        RenderLoop {
            phase: Phase::Idle,
            config: SurfaceConfig { width, height, format, present_mode },
            surface_width: width,
            surface_height: height,
            uniform: FrameUniformState { time_bits: 0, aspect_bits },
        }
    }

    /// Handles one window event and returns the actions the surrounding
    /// program must perform, in order. After a close request the loop is
    /// terminated and every further event leaves the state alone and asks
    /// for nothing, so no further frame is ever issued.
    pub fn handle_event(&mut self, event: LoopEvent) -> (actions: Vec<LoopAction>)
        ensures
            old(self).phase is Terminated ==> {
                &&& *final(self) == *old(self)
                &&& actions@.len() == 0
            },
            old(self).phase is Idle ==> match event {
                LoopEvent::CloseRequested => {
                    &&& *final(self) == (RenderLoop { phase: Phase::Terminated, ..*old(self) })
                    &&& actions@.len() == 1
                    &&& actions@[0] is Exit
                },
                LoopEvent::Resized { width, height, aspect_bits } => {
                    &&& *final(self) == after_resize(*old(self), width, height, aspect_bits)
                    &&& is_resize_step(actions@, width, height)
                },
                LoopEvent::RedrawRequested => {
                    &&& *final(self) == after_redraw(*old(self))
                    &&& is_redraw_step(actions@, after_redraw(*old(self)))
                },
                LoopEvent::Other => {
                    &&& *final(self) == *old(self)
                    &&& actions@.len() == 0
                },
            },
    {
        let mut actions: Vec<LoopAction> = Vec::new();
        if matches!(self.phase, Phase::Terminated) {
            return actions;
        }
        match event {
            LoopEvent::CloseRequested => {
                self.phase = Phase::Terminated;
                actions.push(LoopAction::Exit);
            }
            LoopEvent::Resized { width, height, aspect_bits } => {
                self.config.width = width;
                self.config.height = height;
                self.uniform.aspect_bits = aspect_bits;
                actions.push(LoopAction::Reconfigure { width, height });
                self.surface_width = width;
                self.surface_height = height;
                actions.push(LoopAction::RequestRedraw);
            }
            LoopEvent::RedrawRequested => {
                actions.push(LoopAction::RequestRedraw);
                self.uniform.time_bits = 0;
                let plan = self.plan_frame();
                actions.push(LoopAction::SubmitFrame(plan));
            }
            LoopEvent::Other => {}
        }
        actions
    }

    /// The plan of one frame in the current state: acquire at the
    /// configured surface size, upload the frame uniform's wire image at
    /// offset 0, and record the single clear-and-draw pass.
    fn plan_frame(&self) -> (plan: FramePlan)
        requires
            self.uniform.time_bits == 0,
        ensures
            is_frame_plan_for(plan, *self),
    {
        let uniform_bytes = self.uniform.to_wgsl_bytes();
        let draw = DrawCall { first_vertex: 0, vertex_count: 6, first_instance: 0, instance_count: 1 };
        let mut draws: Vec<DrawCall> = Vec::new();
        draws.push(draw);
        let pass = RenderPassPlan {
            clear_color: Rgba { red: 0, green: 0, blue: 0, alpha: 255 },
            bind_group_slot: 0,
            draws,
        };
        let mut passes: Vec<RenderPassPlan> = Vec::new();
        passes.push(pass);
        FramePlan {
            acquire_width: self.surface_width,
            acquire_height: self.surface_height,
            uniform_offset: 0,
            uniform_bytes,
            passes,
        }
    }
}

/// The state after a whole sequence of resizes, each a (width, height,
/// aspect-ratio-bits) triple, applied in order.
pub open spec fn after_resizes(s: RenderLoop, events: Seq<(u32, u32, u32)>) -> RenderLoop
    decreases events.len(),
{
    if events.len() == 0 {
        s
    } else {
        let last = events.last();
        after_resize(after_resizes(s, events.drop_last()), last.0, last.1, last.2)
    }
}

/// Law: after any non-empty sequence of resizes, the configuration size
/// and the aspect ratio are exactly those of the last resize, independent
/// of prior history; the negotiated format and presentation mode are kept.
pub proof fn lemma_aspect_recomputation(s: RenderLoop, events: Seq<(u32, u32, u32)>)
    requires
        events.len() > 0,
    ensures
        after_resizes(s, events).config.width == events.last().0,
        after_resizes(s, events).config.height == events.last().1,
        after_resizes(s, events).uniform.aspect_bits == events.last().2,
        after_resizes(s, events).surface_width == events.last().0,
        after_resizes(s, events).surface_height == events.last().1,
        after_resizes(s, events).config.format == s.config.format,
        after_resizes(s, events).config.present_mode == s.config.present_mode,
    decreases events.len(),
{
    if events.len() == 1 {
        assert(after_resizes(s, events.drop_last()) == s);
    } else {
        lemma_aspect_recomputation(s, events.drop_last());
    }
}

/// Law: a redraw that immediately follows a resize plans a frame whose
/// acquired texture has exactly the resized dimensions, never a stale
/// size: the reconfiguration happens before the acquisition.
pub proof fn lemma_reconfigure_precedes_acquisition(
    s: RenderLoop,
    width: u32,
    height: u32,
    aspect_bits: u32,
    plan: FramePlan,
)
    requires
        is_frame_plan_for(plan, after_redraw(after_resize(s, width, height, aspect_bits))),
    ensures
        plan.acquire_width == width,
        plan.acquire_height == height,
{
}

/// Law: resizing to the current size changes nothing. The aspect ratio
/// handed in with such a resize is the one already stored, since it is
/// computed from the same width and height.
pub proof fn lemma_resize_to_same_size(s: RenderLoop, aspect_bits: u32)
    requires
        s.surface_width == s.config.width,
        s.surface_height == s.config.height,
        aspect_bits == s.uniform.aspect_bits,
    ensures
        after_resize(s, s.config.width, s.config.height, aspect_bits) == s,
{
}

/// How many frame submissions a sequence of actions holds.
pub open spec fn submit_count(actions: Seq<LoopAction>) -> nat
    decreases actions.len(),
{
    if actions.len() == 0 {
        0
    } else {
        submit_count(actions.drop_last()) + (if actions.last() is SubmitFrame {
            1nat
        } else {
            0nat
        })
    }
}

/// Law: one redraw cycle submits exactly one command buffer, and every
/// frame submitted by it holds exactly one render pass with exactly one
/// draw of six vertices and one instance.
pub proof fn lemma_single_draw_per_frame(s: RenderLoop, actions: Seq<LoopAction>)
    requires
        is_redraw_step(actions, s),
    ensures
        submit_count(actions) == 1,
        forall|i: int| 0 <= i < actions.len() ==>
            (#[trigger] actions[i] matches LoopAction::SubmitFrame(plan) ==> {
                &&& plan.passes@.len() == 1
                &&& plan.passes@[0].draws@.len() == 1
                &&& plan.passes@[0].draws@[0].vertex_count == 6
                &&& plan.passes@[0].draws@[0].instance_count == 1
            }),
{
    let front = actions.drop_last();
    assert(front.len() == 1);
    assert(front.last() == actions[0]);
    assert(submit_count(front.drop_last()) == 0);
    assert(submit_count(front) == 0);
    assert(actions.last() == actions[1]);
}

} // verus!
