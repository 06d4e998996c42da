//! The application controller: the icon, the window registry and the shared
//! drawing context, and the handlers that the event loop calls.

use std::collections::HashMap;
use vstd::prelude::*;
use vstd::std_specs::hash::*;
use vstd::string::*;
use crate::event::{
    device_event_line, user_event_line, LoopControl, UserEvent, WindowAction, WindowEvent, WindowId,
};
use crate::icon::{icon_view, load_icon, IconError, IconImage};
use crate::model::{startup, Controller, CreateWindowError, Phase, StartupError, WindowAttempt};
use crate::monitor::{monitor_report, texts, MonitorInfo};
use crate::window::WindowState;

verus! {

broadcast use group_hash_axioms;

/// Application state and event handling.
///
/// `C` is the shared drawing context and `H` what each window keeps alive.
/// The application owns both: a window's resources are released when its
/// record leaves the registry, and the context when the loop is left, after
/// every window.
pub struct Application<C, H> {
    icon: IconImage,
    windows: HashMap<WindowId, WindowState<H>>,
    context: Option<C>,
    exit_requested: bool,
}

impl<C, H> View for Application<C, H> {
    type V = Controller<C, H>;

    closed spec fn view(&self) -> Controller<C, H> {
        Controller {
            icon: self.icon@,
            windows: Map::new(
                |id: WindowId| self.windows@.contains_key(id),
                |id: WindowId| self.windows@[id]@,
            ),
            context: self.context,
            exit_requested: self.exit_requested,
        }
    }
}

/// What an application, or the reason why there is none, stands for.
pub open spec fn controller_view<C, H>(app: Result<Application<C, H>, StartupError>) -> Result<
    Controller<C, H>,
    StartupError,
> {
    match app {
        Ok(app) => Ok(app@),
        Err(e) => Err(e),
    }
}

impl<C, H> Application<C, H> {
    /// Constructs the application from the drawing context that the display
    /// gave, if it gave one, and from the embedded icon.
    ///
    /// Fails with `NoDisplay` exactly when there is no context. Otherwise the
    /// decoder decides whether the icon loads; when it does, the application
    /// starts idle, with the context and an empty registry.
    pub fn new(context: Option<C>, icon_bytes: &[u8]) -> (r: Result<Self, StartupError>)
        ensures
            match r {
                Ok(app) => context matches Some(c) && app@ == Controller::<C, H>::initial(
                    c,
                    app@.icon,
                ) && app@.wf(),
                Err(e) => if context is None {
                    e == StartupError::NoDisplay
                } else {
                    e is Icon
                },
            },
    {
        match context {
            None => Err(StartupError::NoDisplay),
            Some(context) => Self::with_icon(Some(context), load_icon(icon_bytes)),
        }
    }

    /// Constructs the application from the drawing context, if there is one,
    /// and from the icon or the reason why there is none.
    pub fn with_icon(context: Option<C>, icon: Result<IconImage, IconError>) -> (r: Result<
        Self,
        StartupError,
    >)
        ensures
            controller_view(r) == startup::<C, H>(context, icon_view(icon)),
            r matches Ok(app) ==> app@.wf(),
    {
        match context {
            None => Err(StartupError::NoDisplay),
            Some(context) => match icon {
                Err(e) => Err(StartupError::Icon(e)),
                Ok(icon) => {
                    proof {
                        use_type_invariant(&icon);
                    }
                    let app = Application {
                        icon,
                        windows: HashMap::new(),
                        context: Some(context),
                        exit_requested: false,
                    };
                    assert(app@.windows =~= Map::empty());
                    Ok(app)
                },
            },
        }
    }

    /// Registers the window that the shell built, or says why none is
    /// registered.
    ///
    /// A refusal of the windowing system is handed on, and a window of zero
    /// width or height is turned down. Any other window is registered under
    /// its id, which is returned, unless the loop has been told to stop.
    /// Resources of a window that is not registered are released.
    pub fn create_window(&mut self, attempt: WindowAttempt<H>) -> (r: Result<
        WindowId,
        CreateWindowError,
    >)
        ensures
            (final(self)@, r) == old(self)@.create_window(attempt),
            old(self)@.wf() ==> final(self)@.wf(),
    {
        match attempt {
            WindowAttempt::WindowRefused => Err(CreateWindowError::WindowRefused),
            WindowAttempt::HitTestRefused => Err(CreateWindowError::HitTestRefused),
            WindowAttempt::SurfaceRefused => Err(CreateWindowError::SurfaceRefused),
            WindowAttempt::Built { id, width, height, handle } => {
                match WindowState::new(handle, width, height) {
                    Err(e) => Err(CreateWindowError::SurfaceSize(e)),
                    Ok(state) => {
                        if self.accepts_windows() {
                            self.windows.insert(id, state);
                            assert(self@.windows =~= old(self)@.windows.insert(id, state@));
                            Ok(id)
                        } else {
                            Err(CreateWindowError::LoopExiting)
                        }
                    },
                }
            },
        }
    }

    /// Handles the loop becoming active: writes the report on the displays
    /// and registers the initial window.
    ///
    /// The report changes nothing. A failure to create the window is one
    /// that the application cannot go on with.
    pub fn resumed(&mut self, monitors: &Vec<MonitorInfo>, attempt: WindowAttempt<H>) -> (r: (
        Vec<String>,
        Result<WindowId, StartupError>,
    ))
        ensures
            texts(r.0@) == monitor_report(monitors@),
            (final(self)@, r.1) == old(self)@.resumed(attempt),
            old(self)@.wf() ==> final(self)@.wf(),
    {
        let report = self.dump_monitors(monitors);
        let window = match self.create_window(attempt) {
            Ok(id) => Ok(id),
            Err(e) => Err(StartupError::InitialWindow(e)),
        };
        (report, window)
    }

    /// The idle check, made after each pass over the pending events: tells
    /// the loop to stop exactly when no window is registered.
    pub fn about_to_wait(&mut self) -> (control: LoopControl)
        ensures
            (final(self)@, control) == old(self)@.about_to_wait(),
            old(self)@.wf() ==> final(self)@.wf(),
    {
        if self.windows.is_empty() {
            self.exit_requested = true;
            assert(self@.windows =~= old(self)@.windows);
            LoopControl::Exit
        } else {
            LoopControl::Continue
        }
    }

    /// Handles the loop being left: releases every window that is still
    /// registered and then the drawing context.
    pub fn exiting(&mut self)
        ensures
            final(self)@ == old(self)@.exiting(),
            final(self)@.wf(),
    {
        self.windows.clear();
        self.exit_requested = true;
        self.context = None;
        proof {
            use_type_invariant(&self.icon);
        }
        assert(self@.windows =~= Map::empty());
    }

    /// Writes the report on the displays that the windowing system offers,
    /// one log line per entry.
    pub fn dump_monitors(&self, monitors: &Vec<MonitorInfo>) -> (lines: Vec<String>)
        ensures
            texts(lines@) == monitor_report(monitors@),
    {
        crate::monitor::dump_monitors(monitors)
    }

    /// Handles a user event: writes the log line on it. The application stays
    /// as it is.
    pub fn user_event(&self, event: UserEvent) -> (line: String)
        ensures
            line@ == user_event_line(event),
    {
        let mut line = "User event: ".to_owned();
        line.append(event.name());
        line
    }

    /// Handles an event of an input device: writes the log line on it,
    /// whatever the event. `device_id` and `event` are the device's id and
    /// the event as the windowing system writes them out. The application
    /// stays as it is.
    pub fn device_event(&self, device_id: &str, event: &str) -> (line: String)
        ensures
            line@ == device_event_line(device_id@, event@),
    {
        let mut line = "Device ".to_owned();
        line.append(device_id);
        line.append(" event: ");
        line.append(event);
        line
    }

    /// Handles an event addressed to the window `window_id`.
    ///
    /// An event for a window that is not registered is ignored. A close
    /// request removes the window from the registry and releases its
    /// resources; every other event leaves the application as it is and
    /// says what the shell has to do.
    pub fn window_event(&mut self, window_id: WindowId, event: WindowEvent) -> (action:
        WindowAction)
        ensures
            (final(self)@, action) == old(self)@.window_event(window_id, event),
            old(self)@.wf() ==> final(self)@.wf(),
    {
        if !self.windows.contains_key(&window_id) {
            return WindowAction::Ignore;
        }
        match event {
            WindowEvent::CloseRequested => {
                self.windows.remove(&window_id);
                assert(self@.windows =~= old(self)@.windows.remove(window_id));
                WindowAction::ReportClosed
            },
            _ => event.action(),
        }
    }

    /// The application icon.
    pub fn icon(&self) -> (icon: &IconImage)
        ensures
            icon@ == self@.icon,
    {
        &self.icon
    }

    /// The shared drawing context, until it is released.
    pub fn context(&self) -> (context: Option<&C>)
        ensures
            match context {
                Some(c) => self@.context == Some(*c),
                None => self@.context is None,
            },
    {
        self.context.as_ref()
    }

    /// The record of the window `window_id`, if it is registered.
    pub fn window(&self, window_id: WindowId) -> (window: Option<&WindowState<H>>)
        ensures
            match window {
                Some(w) => self@.windows.contains_key(window_id) && self@.windows[window_id]
                    == w@,
                None => !self@.windows.contains_key(window_id),
            },
    {
        self.windows.get(&window_id)
    }

    /// Whether the window `window_id` is registered.
    pub fn contains_window(&self, window_id: WindowId) -> (registered: bool)
        ensures
            registered == self@.windows.contains_key(window_id),
    {
        self.windows.contains_key(&window_id)
    }

    /// The number of registered windows.
    pub fn window_count(&self) -> (count: usize)
        ensures
            count == self@.windows.len(),
    {
        assert(self@.windows.dom() =~= self.windows@.dom());
        self.windows.len()
    }

    /// Whether windows may be created.
    pub fn accepts_windows(&self) -> (accepts: bool)
        ensures
            accepts == self@.accepts_windows(),
    {
        self.context.is_some() && !self.exit_requested
    }

    /// Where the application stands in its life.
    pub fn phase(&self) -> (phase: Phase)
        ensures
            phase == self@.phase(),
    {
        if self.context.is_none() {
            Phase::Terminated
        } else if self.exit_requested {
            Phase::Exiting
        } else if self.windows.is_empty() {
            assert(self@.windows.dom() =~= self.windows@.dom());
            Phase::Idle
        } else {
            assert(self@.windows.dom() =~= self.windows@.dom());
            Phase::Running
        }
    }
}

} // verus!
