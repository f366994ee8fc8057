//! The render loop's decisions, separated from the windowing collaborator
//! that carries them out. The host loop turns each windowing event into a
//! `FrameEvent`, asks `dispatch` for the action, and performs it: the core
//! fixes the policy — exactly one animation tick per prepared frame and one
//! composite per presented frame, exit on close or on presentation failure —
//! while all I/O stays outside.

use vstd::prelude::*;

verus! {

/// An event handed to the render loop by the windowing collaborator.
#[derive(Clone, Copy, PartialEq, Eq, Structural, Debug)]
pub enum FrameEvent {
    /// The user asked to close the window.
    CloseRequested,
    /// The presentation surface was resized to the given physical size.
    SurfaceResized { width: u32, height: u32 },
    /// The presenter asks for the current frame to be drawn and shown.
    RedrawRequested,
    /// The event queue drained; the next frame may be prepared.
    EventsCleared,
    /// Presenting the last frame failed unrecoverably.
    PresentFailed,
    /// Any other windowing event; none of them concerns the core.
    Other,
}

/// What the driver must do in response to an event.
#[derive(Clone, Copy, PartialEq, Eq, Structural, Debug)]
pub enum LoopAction {
    /// Terminate the render loop.
    Exit,
    /// Resize the presentation surface; the fixed internal frame keeps its
    /// resolution.
    ResizeSurface { width: u32, height: u32 },
    /// Composite the current frame and present it.
    DrawAndPresent,
    /// Advance the animation by exactly one tick, then request a redraw.
    TickAndRedraw,
    /// Nothing to do.
    Ignore,
}

/// The render loop's decision table, one action per event: close requests
/// and presentation failures end the loop; a resize touches only the
/// presentation surface; a redraw request composites and presents exactly
/// once; a drained event queue ticks the animation exactly once and asks
/// for a redraw; everything else is ignored.
pub fn dispatch(event: FrameEvent) -> (action: LoopAction)
    ensures
        event is CloseRequested ==> action is Exit,
        event is PresentFailed ==> action is Exit,
        event matches FrameEvent::SurfaceResized { width, height } ==> action
            == (LoopAction::ResizeSurface { width, height }),
        event is RedrawRequested ==> action is DrawAndPresent,
        event is EventsCleared ==> action is TickAndRedraw,
        event is Other ==> action is Ignore,
{
    match event {
        FrameEvent::CloseRequested => LoopAction::Exit,
        FrameEvent::PresentFailed => LoopAction::Exit,
        FrameEvent::SurfaceResized { width, height } => LoopAction::ResizeSurface { width, height },
        FrameEvent::RedrawRequested => LoopAction::DrawAndPresent,
        FrameEvent::EventsCleared => LoopAction::TickAndRedraw,
        FrameEvent::Other => LoopAction::Ignore,
    }
}

} // verus!
