//! The event-loop decision: the walkthrough's window loop runs until the
//! window is asked to close or the escape key is pressed. The windowing
//! system delivers events outside this library; the decision of whether to
//! keep looping is made here, on a plain event value.

use vstd::prelude::*;

verus! {

/// What the loop decision reads of one windowing event.
#[derive(Clone, Copy, PartialEq, Eq, Structural, Debug)]
pub enum AppEvent {
    /// The window was asked to close.
    CloseRequested,
    /// The escape key was pressed.
    EscapePressed,
    /// A key other than escape was pressed.
    OtherKeyInput,
    /// Anything else the windowing system delivers.
    Other,
}

/// What the loop does next.
#[derive(Clone, Copy, PartialEq, Eq, Structural, Debug)]
pub enum LoopControl {
    KeepRunning,
    Stop,
}

/// The loop stops exactly on a close request or an escape press.
pub open spec fn stops_loop(e: AppEvent) -> bool {
    e == AppEvent::CloseRequested || e == AppEvent::EscapePressed
}

/// Decide, for one event, whether the main loop keeps running or stops.
pub fn control_flow(event: AppEvent) -> (r: LoopControl)
    ensures
        r == LoopControl::Stop <==> stops_loop(event),
        r == LoopControl::KeepRunning <==> !stops_loop(event),
{
    match event {
        AppEvent::CloseRequested => LoopControl::Stop,
        AppEvent::EscapePressed => LoopControl::Stop,
        AppEvent::OtherKeyInput => LoopControl::KeepRunning,
        AppEvent::Other => LoopControl::KeepRunning,
    }
}

} // verus!
