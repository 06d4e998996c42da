//! The events that reach the controller and what it asks of the shell in
//! return.

use vstd::prelude::*;

verus! {

/// Identifies a live window. The windowing system assigns it, and it is not
/// given out again while the window it names is still registered.
pub type WindowId = u64;

/// Seconds between two wake-ups of the event loop by the timer.
pub const WAKE_UP_INTERVAL_SECS: u64 = 1;

/// A signal pushed into the event loop from outside the windowing system.
#[derive(Clone, Copy, Debug, PartialEq, Eq, Structural)]
pub enum UserEvent {
    /// The periodic timer fired.
    WakeUp,
}

impl UserEvent {
    /// The event's name as text.
    pub open spec fn spec_name(self) -> Seq<char> {
        match self {
            UserEvent::WakeUp => "WakeUp"@,
        }
    }

    /// The event's name.
    pub fn name(self) -> (name: &'static str)
        ensures
            name@ == self.spec_name(),
    {
        match self {
            UserEvent::WakeUp => "WakeUp",
        }
    }
}

/// The log line on a user event.
pub open spec fn user_event_line(event: UserEvent) -> Seq<char> {
    "User event: "@ + event.spec_name()
}

/// The log line on an event of an input device. `device` and `event` are the
/// device's id and the event as the windowing system writes them out.
pub open spec fn device_event_line(device: Seq<char>, event: Seq<char>) -> Seq<char> {
    "Device "@ + device + " event: "@ + event
}

/// The unit of a scroll-wheel movement.
#[derive(Clone, Copy, Debug, PartialEq, Eq, Structural)]
pub enum MouseScrollDelta {
    /// The wheel moved by whole lines or rows.
    LineDelta,
    /// The wheel moved by physical pixels.
    PixelDelta,
}

/// An event addressed to one window, reduced to what the controller decides
/// on.
#[derive(Clone, Copy, Debug, PartialEq, Eq, Structural)]
pub enum WindowEvent {
    /// The window gained (`true`) or lost (`false`) the input focus.
    Focused(bool),
    /// The window's contents have to be drawn again.
    RedrawRequested,
    /// The user asked for the window to be closed.
    CloseRequested,
    /// The scroll wheel moved over the window.
    MouseWheel { delta: MouseScrollDelta },
    /// A key was pressed or released. `is_synthetic` marks events that the
    /// windowing system made up itself, for instance on a focus change.
    KeyboardInput { is_synthetic: bool },
    /// Any other event.
    Other,
}

/// What the shell has to do after the controller has seen a window event.
#[derive(Clone, Copy, Debug, PartialEq, Eq, Structural)]
pub enum WindowAction {
    /// Nothing: the window is not registered, or the event needs no answer.
    Ignore,
    /// Log that the window gained or lost the focus.
    ReportFocus { focused: bool },
    /// Draw the window and log a failure, if any. The window stays
    /// registered either way.
    Draw,
    /// Log that the window was closed. Its record has left the registry and
    /// its resources have been released.
    ReportClosed,
    /// Log the scroll-wheel movement.
    ReportScroll { delta: MouseScrollDelta },
    /// Log the keyboard input.
    ReportKey,
}

/// What the event loop has to do after an idle check.
#[derive(Clone, Copy, Debug, PartialEq, Eq, Structural)]
pub enum LoopControl {
    /// Keep waiting for events.
    Continue,
    /// Stop: no window is left.
    Exit,
}

/// What a window event asks of the shell when its window is registered.
pub open spec fn action_for(event: WindowEvent) -> WindowAction {
    match event {
        WindowEvent::Focused(focused) => WindowAction::ReportFocus { focused },
        WindowEvent::RedrawRequested => WindowAction::Draw,
        WindowEvent::CloseRequested => WindowAction::ReportClosed,
        WindowEvent::MouseWheel { delta } => WindowAction::ReportScroll { delta },
        WindowEvent::KeyboardInput { is_synthetic } => if is_synthetic {
            WindowAction::Ignore
        } else {
            WindowAction::ReportKey
        },
        WindowEvent::Other => WindowAction::Ignore,
    }
}

impl WindowEvent {
    /// What this event asks of the shell when its window is registered.
    pub fn action(self) -> (a: WindowAction)
        ensures
            a == action_for(self),
    {
        match self {
            WindowEvent::Focused(focused) => WindowAction::ReportFocus { focused },
            WindowEvent::RedrawRequested => WindowAction::Draw,
            WindowEvent::CloseRequested => WindowAction::ReportClosed,
            WindowEvent::MouseWheel { delta } => WindowAction::ReportScroll { delta },
            WindowEvent::KeyboardInput { is_synthetic } => {
                if is_synthetic {
                    WindowAction::Ignore
                } else {
                    WindowAction::ReportKey
                }
            },
            WindowEvent::Other => WindowAction::Ignore,
        }
    }
}

} // verus!
