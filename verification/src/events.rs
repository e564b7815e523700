//! The window events the host loop delivers, and what the engine decides
//! to do with each.
//!
//! The host translates its platform's events into [`EngineEvent`] values,
//! asks [`respond_to_window_event`] for the decision, and carries it out:
//! exiting the loop, resizing the renderer, or nothing.

use vstd::prelude::*;

verus! {

/// A lifecycle event of the window, as plain values.
#[derive(Clone, Copy, Debug, PartialEq, Eq, Structural)]
pub enum EngineEvent {
    /// The user asked to close the window.
    CloseRequested,
    /// A key changed state; only a pressed escape key matters here.
    KeyboardInput { pressed: bool, escape: bool },
    /// The window was resized to the given pixel size.
    Resized(u32, u32),
    /// The display scale changed; the new pixel size is reported.
    ScaleFactorChanged(u32, u32),
    /// Anything else; ignored.
    Other,
}

/// What the host loop must do with an event.
#[derive(Clone, Copy, Debug, PartialEq, Eq, Structural)]
pub enum EventResponse {
    /// Tear down the run loop; a close request is terminal.
    Exit,
    /// Apply the reported size through the renderer's resize.
    Resize(u32, u32),
    /// Nothing.
    Ignore,
}

/// Decides the run loop's reaction to a window event: a close request or
/// a pressed escape key ends the loop; a resize or scale change applies
/// the reported size; everything else is ignored.
pub fn respond_to_window_event(e: &EngineEvent) -> (r: EventResponse)
    ensures
        r == (match *e {
            EngineEvent::CloseRequested => EventResponse::Exit,
            EngineEvent::KeyboardInput { pressed, escape } => if pressed && escape {
                EventResponse::Exit
            } else {
                EventResponse::Ignore
            },
            EngineEvent::Resized(w, h) => EventResponse::Resize(w, h),
            EngineEvent::ScaleFactorChanged(w, h) => EventResponse::Resize(w, h),
            EngineEvent::Other => EventResponse::Ignore,
        }),
{
    match e {
        EngineEvent::CloseRequested => EventResponse::Exit,
        EngineEvent::KeyboardInput { pressed, escape } => {
            if *pressed && *escape {
                EventResponse::Exit
            } else {
                EventResponse::Ignore
            }
        },
        EngineEvent::Resized(w, h) => EventResponse::Resize(*w, *h),
        EngineEvent::ScaleFactorChanged(w, h) => EventResponse::Resize(*w, *h),
        EngineEvent::Other => EventResponse::Ignore,
    }
}

} // verus!
