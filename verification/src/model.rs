//! The controller as a mathematical state machine.
//!
//! `Controller` is what an [`Application`](crate::app::Application) stands
//! for. Each handler of the application is stated here as a function from a
//! state and an input to the next state and an answer.

use vstd::prelude::*;
use crate::event::{action_for, LoopControl, WindowAction, WindowEvent, WindowId};
use crate::icon::{IconData, IconError};
use crate::window::{bind_record, SurfaceError, WindowRecord};

verus! {

/// Where the application stands in its life.
#[derive(Clone, Copy, Debug, PartialEq, Eq, Structural)]
pub enum Phase {
    /// No window is registered and the loop has not been told to stop.
    Idle,
    /// At least one window is registered.
    Running,
    /// The event loop was told to stop; no window is left and none may be
    /// created.
    Exiting,
    /// The drawing context has been released.
    Terminated,
}

/// What came of asking the windowing system for a new overlay window.
pub enum WindowAttempt<H> {
    /// The windowing system could not construct the window.
    WindowRefused,
    /// The window was constructed but hit-testing could not be switched off.
    HitTestRefused,
    /// No surface could be bound to the window.
    SurfaceRefused,
    /// The window exists and a surface is bound to it. `width` and `height`
    /// are the window's inner size in physical pixels.
    Built { id: WindowId, width: u32, height: u32, handle: H },
}

/// Why no window was registered.
#[derive(Clone, Copy, Debug, PartialEq, Eq, Structural)]
pub enum CreateWindowError {
    /// The window was built, but the event loop is stopping or has stopped.
    LoopExiting,
    /// The windowing system could not construct the window.
    WindowRefused,
    /// Hit-testing could not be switched off, so the window would swallow
    /// pointer input.
    HitTestRefused,
    /// No surface could be bound to the window.
    SurfaceRefused,
    /// The surface could not be sized to the window.
    SurfaceSize(SurfaceError),
}

/// A failure that the application cannot start or go on with.
#[derive(Clone, Copy, Debug, PartialEq, Eq, Structural)]
pub enum StartupError {
    /// The platform gave no access to a display.
    NoDisplay,
    /// The embedded icon could not be loaded.
    Icon(IconError),
    /// The initial window could not be created.
    InitialWindow(CreateWindowError),
}

/// The state of the controller.
pub struct Controller<C, H> {
    /// The application icon.
    pub icon: IconData,
    /// The registry: every live window under its id.
    pub windows: Map<WindowId, WindowRecord<H>>,
    /// The shared drawing context, until it is released.
    pub context: Option<C>,
    /// The event loop was told to stop.
    pub exit_requested: bool,
}

/// What constructing the application comes to: without access to a display
/// there is no context and no application, and without an icon neither.
pub open spec fn startup<C, H>(context: Option<C>, icon: Result<IconData, IconError>) -> Result<
    Controller<C, H>,
    StartupError,
> {
    match context {
        None => Err(StartupError::NoDisplay),
        Some(context) => match icon {
            Err(e) => Err(StartupError::Icon(e)),
            Ok(icon) => Ok(Controller::initial(context, icon)),
        },
    }
}

impl<C, H> Controller<C, H> {
    /// The state that a freshly constructed application stands for.
    pub open spec fn initial(context: C, icon: IconData) -> Self {
        Controller { icon, windows: Map::empty(), context: Some(context), exit_requested: false }
    }

    /// The invariant of the controller: the icon is whole, every registered
    /// window can present, windows are registered only while the loop has not
    /// been told to stop, and the context is released only after that.
    pub open spec fn wf(self) -> bool {
        &&& self.icon.wf()
        &&& self.windows.dom().finite()
        &&& forall|id: WindowId| #[trigger]
            self.windows.contains_key(id) ==> self.windows[id].wf()
        &&& self.exit_requested ==> self.windows.is_empty()
        &&& self.context is None ==> self.exit_requested
    }

    /// Where the application stands in its life.
    pub open spec fn phase(self) -> Phase {
        if self.context is None {
            Phase::Terminated
        } else if self.exit_requested {
            Phase::Exiting
        } else if self.windows.is_empty() {
            Phase::Idle
        } else {
            Phase::Running
        }
    }

    /// Windows may be created: the drawing context is there and the loop has
    /// not been told to stop.
    pub open spec fn accepts_windows(self) -> bool {
        self.context is Some && !self.exit_requested
    }

    /// The state with `record` registered under `id`.
    pub open spec fn register(self, id: WindowId, record: WindowRecord<H>) -> Self {
        Controller { windows: self.windows.insert(id, record), ..self }
    }

    /// The state without the window `id`.
    pub open spec fn unregister(self, id: WindowId) -> Self {
        Controller { windows: self.windows.remove(id), ..self }
    }

    /// What an attempt to create a window comes to. A refusal of the
    /// windowing system is handed on, a window without area is turned down,
    /// and a window that was built is registered unless the loop has been
    /// told to stop.
    pub open spec fn create_window(self, attempt: WindowAttempt<H>) -> (Self, Result<
        WindowId,
        CreateWindowError,
    >) {
        match attempt {
            WindowAttempt::WindowRefused => (self, Err(CreateWindowError::WindowRefused)),
            WindowAttempt::HitTestRefused => (self, Err(CreateWindowError::HitTestRefused)),
            WindowAttempt::SurfaceRefused => (self, Err(CreateWindowError::SurfaceRefused)),
            WindowAttempt::Built { id, width, height, handle } => match bind_record(
                handle,
                width,
                height,
            ) {
                Err(e) => (self, Err(CreateWindowError::SurfaceSize(e))),
                Ok(record) => if self.accepts_windows() {
                    (self.register(id, record), Ok(id))
                } else {
                    (self, Err(CreateWindowError::LoopExiting))
                },
            },
        }
    }

    /// What becoming active comes to: the initial window is created, and a
    /// failure to do so is one that the application cannot go on with.
    pub open spec fn resumed(self, attempt: WindowAttempt<H>) -> (Self, Result<
        WindowId,
        StartupError,
    >) {
        match self.create_window(attempt).1 {
            Ok(id) => (self.create_window(attempt).0, Ok(id)),
            Err(e) => (self.create_window(attempt).0, Err(StartupError::InitialWindow(e))),
        }
    }

    /// What a window event comes to. An event for a window that is not
    /// registered changes nothing; a close request removes the window; every
    /// other event leaves the state as it is.
    pub open spec fn window_event(self, id: WindowId, event: WindowEvent) -> (Self, WindowAction) {
        if !self.windows.contains_key(id) {
            (self, WindowAction::Ignore)
        } else if event is CloseRequested {
            (self.unregister(id), WindowAction::ReportClosed)
        } else {
            (self, action_for(event))
        }
    }

    /// What an idle check comes to: the loop stops exactly when no window is
    /// registered.
    pub open spec fn about_to_wait(self) -> (Self, LoopControl) {
        if self.windows.is_empty() {
            (Controller { exit_requested: true, ..self }, LoopControl::Exit)
        } else {
            (self, LoopControl::Continue)
        }
    }

    /// What leaving the event loop comes to: every window that is still
    /// registered is released, and after them the drawing context.
    pub open spec fn exiting(self) -> Self {
        Controller { windows: Map::empty(), context: None, exit_requested: true, ..self }
    }
}

} // verus!
