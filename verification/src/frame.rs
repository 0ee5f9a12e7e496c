//! The decisions of the frame loop: what to do on each event that is not
//! input, and how to go on after a frame has been drawn or has failed to
//! draw. The loop itself, the window and the drawing stand outside; they
//! report what happened and carry out what is decided here.

use vstd::prelude::*;

verus! {

/// What the window system reports besides input.
#[derive(Clone, Copy, Debug, PartialEq, Eq)]
pub enum LoopEvent {
    /// The window asks to be drawn.
    RedrawRequested,
    /// All pending events have been handed out.
    MainEventsCleared,
    /// The user asked for the window to close.
    CloseRequested,
    /// The window has a new size, in pixels.
    Resized { width: u32, height: u32 },
    /// Anything else.
    Other,
}

/// What the loop does next.
#[derive(Clone, Copy, Debug, PartialEq, Eq)]
pub enum Step {
    /// Nothing.
    Idle,
    /// Run one frame: update the scene, draw it, recover as
    /// [`after_render`] says, and then clear the frame's input.
    Frame,
    /// Ask the window for a redraw.
    RequestRedraw,
    /// Fit the drawing surface to the new size.
    Resize { width: u32, height: u32 },
    /// Leave the loop.
    Exit,
}

/// How an attempt to draw a frame ended.
#[derive(Clone, Copy, Debug, PartialEq, Eq)]
pub enum RenderOutcome {
    /// The frame is on screen.
    Presented,
    /// The drawing surface was lost.
    SurfaceLost,
    /// The device is out of memory.
    OutOfMemory,
    /// Another failure, which the next frame may not meet again.
    Failed,
}

/// What to do about the outcome of a frame.
#[derive(Clone, Copy, Debug, PartialEq, Eq)]
pub enum Recovery {
    /// Go on.
    Continue,
    /// Set the surface up again at its present size, and go on.
    Reconfigure,
    /// Leave the loop.
    Exit,
    /// Report the failure, and go on.
    Report,
}

/// The step that answers an event.
pub open spec fn next_step_spec(event: LoopEvent) -> Step {
    match event {
        LoopEvent::RedrawRequested => Step::Frame,
        LoopEvent::MainEventsCleared => Step::RequestRedraw,
        LoopEvent::CloseRequested => Step::Exit,
        LoopEvent::Resized { width, height } => Step::Resize { width, height },
        LoopEvent::Other => Step::Idle,
    }
}

/// The step that answers an event: a frame on a redraw request, a redraw
/// request once the events are cleared, so that frames follow one another,
/// the end on a close request, and a resize on a new size.
pub fn next_step(event: LoopEvent) -> (step: Step)
    ensures
        step == next_step_spec(event),
{
    match event {
        LoopEvent::RedrawRequested => Step::Frame,
        LoopEvent::MainEventsCleared => Step::RequestRedraw,
        LoopEvent::CloseRequested => Step::Exit,
        LoopEvent::Resized { width, height } => Step::Resize { width, height },
        LoopEvent::Other => Step::Idle,
    }
}

/// The recovery that answers the outcome of a frame.
pub open spec fn after_render_spec(outcome: RenderOutcome) -> Recovery {
    match outcome {
        RenderOutcome::Presented => Recovery::Continue,
        RenderOutcome::SurfaceLost => Recovery::Reconfigure,
        RenderOutcome::OutOfMemory => Recovery::Exit,
        RenderOutcome::Failed => Recovery::Report,
    }
}

/// The recovery that answers the outcome of a frame: a lost surface is set
/// up again, a device out of memory ends the loop, and any other failure is
/// reported and the loop goes on.
pub fn after_render(outcome: RenderOutcome) -> (recovery: Recovery)
    ensures
        recovery == after_render_spec(outcome),
{
    match outcome {
        RenderOutcome::Presented => Recovery::Continue,
        RenderOutcome::SurfaceLost => Recovery::Reconfigure,
        RenderOutcome::OutOfMemory => Recovery::Exit,
        RenderOutcome::Failed => Recovery::Report,
    }
}

/// Whether a surface can take the size: neither side may be zero. A
/// resize to any other size is ignored.
pub fn accepts_size(width: u32, height: u32) -> (ok: bool)
    ensures
        ok == (width != 0 && height != 0),
{
    width != 0 && height != 0
}

} // verus!
