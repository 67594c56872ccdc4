//! Decisions of the window event loop: what each event asks for, and what to
//! do when a frame could not be drawn.

use vstd::prelude::*;
use crate::surface::SurfaceSize;

verus! {

/// Why the next surface image could not be acquired.
#[derive(Clone, Copy, Debug, PartialEq, Eq, Structural)]
pub enum FrameError {
    /// The surface was lost.
    Lost,
    /// The surface no longer matches the window.
    Outdated,
    /// The device ran out of memory.
    OutOfMemory,
    /// Acquiring the image took too long.
    Timeout,
}

/// What the loop does after an attempt to draw a frame.
#[derive(Clone, Copy, Debug, PartialEq, Eq, Structural)]
pub enum FrameAction {
    /// The frame was presented; nothing more to do.
    Continue,
    /// Configure the surface again at the last known size and draw on the
    /// next frame.
    Reconfigure,
    /// Report the error and carry on.
    Report,
    /// Leave the loop with this exit code.
    Exit { code: i32 },
}

/// The exit code of a normal close.
pub const EXIT_CLOSED: i32 = 0;

/// The exit code after a fatal device error.
pub const EXIT_FATAL: i32 = -1;

/// The policy for the outcome of a frame.
pub open spec fn frame_action_spec(outcome: Result<(), FrameError>) -> FrameAction {
    match outcome {
        Ok(()) => FrameAction::Continue,
        Err(FrameError::Lost) => FrameAction::Reconfigure,
        Err(FrameError::Outdated) => FrameAction::Reconfigure,
        Err(FrameError::OutOfMemory) => FrameAction::Exit { code: EXIT_FATAL },
        Err(FrameError::Timeout) => FrameAction::Report,
    }
}

/// What to do after a frame: a lost or outdated surface is configured again,
/// running out of memory ends the loop with a nonzero code, and a timeout is
/// reported and otherwise ignored.
pub fn frame_action(outcome: &Result<(), FrameError>) -> (r: FrameAction)
    ensures
        r == frame_action_spec(*outcome),
{
    match outcome {
        Ok(()) => FrameAction::Continue,
        Err(FrameError::Lost) => FrameAction::Reconfigure,
        Err(FrameError::Outdated) => FrameAction::Reconfigure,
        Err(FrameError::OutOfMemory) => FrameAction::Exit { code: EXIT_FATAL },
        Err(FrameError::Timeout) => FrameAction::Report,
    }
}

/// An event of the window that the renderer draws into.
#[derive(Clone, Copy, Debug, PartialEq, Eq, Structural)]
pub enum LoopEvent {
    CloseRequested,
    Resized(SurfaceSize),
    /// The scale factor changed; the window's inner size is now this.
    ScaleFactorChanged(SurfaceSize),
    RedrawRequested,
    /// All pending events have been handled.
    MainEventsCleared,
    Other,
}

/// What the loop does on an event.
#[derive(Clone, Copy, Debug, PartialEq, Eq, Structural)]
pub enum LoopAction {
    /// Leave the loop with this exit code.
    Exit { code: i32 },
    /// Resize the surface (a size with a zero side is then ignored).
    Resize(SurfaceSize),
    /// Update the camera, then draw and present a frame.
    Draw,
    /// Ask the window for a redraw.
    RequestRedraw,
    Nothing,
}

/// The policy for window events.
pub open spec fn loop_action_spec(e: LoopEvent) -> LoopAction {
    match e {
        LoopEvent::CloseRequested => LoopAction::Exit { code: EXIT_CLOSED },
        LoopEvent::Resized(s) => LoopAction::Resize(s),
        LoopEvent::ScaleFactorChanged(s) => LoopAction::Resize(s),
        LoopEvent::RedrawRequested => LoopAction::Draw,
        LoopEvent::MainEventsCleared => LoopAction::RequestRedraw,
        LoopEvent::Other => LoopAction::Nothing,
    }
}

/// What to do on a window event: a close ends the loop with code zero, both
/// kinds of resize resize the surface, a redraw draws a frame, and a drained
/// event queue asks for the next redraw.
pub fn loop_action(e: &LoopEvent) -> (r: LoopAction)
    ensures
        r == loop_action_spec(*e),
{
    match e {
        LoopEvent::CloseRequested => LoopAction::Exit { code: EXIT_CLOSED },
        LoopEvent::Resized(s) => LoopAction::Resize(*s),
        LoopEvent::ScaleFactorChanged(s) => LoopAction::Resize(*s),
        LoopEvent::RedrawRequested => LoopAction::Draw,
        LoopEvent::MainEventsCleared => LoopAction::RequestRedraw,
        LoopEvent::Other => LoopAction::Nothing,
    }
}

} // verus!
