//! What holds of the controller over its whole life.
//!
//! Every statement here is about [`Controller`], the state machine that the
//! handlers of the application follow step for step.

use vstd::prelude::*;
use crate::event::{LoopControl, WindowAction, WindowEvent, WindowId};
use crate::icon::IconData;
use crate::model::{Controller, CreateWindowError, Phase, WindowAttempt};
use crate::window::SurfaceError;

verus! {

/// A freshly constructed application is well formed and idle.
pub proof fn initial_is_idle<C, H>(context: C, icon: IconData)
    requires
        icon.wf(),
    ensures
        Controller::<C, H>::initial(context, icon).wf(),
        Controller::<C, H>::initial(context, icon).phase() == Phase::Idle,
        Controller::<C, H>::initial(context, icon).accepts_windows(),
{
}

/// How far the application has come: accepting windows, stopping, stopped.
pub open spec fn progress(phase: Phase) -> nat {
    match phase {
        Phase::Idle => 0,
        Phase::Running => 0,
        Phase::Exiting => 1,
        Phase::Terminated => 2,
    }
}

/// The application never goes back: once it is stopping it does not accept
/// windows again, and once it has stopped it stays so.
pub proof fn life_goes_forward<C, H>(
    m: Controller<C, H>,
    attempt: WindowAttempt<H>,
    id: WindowId,
    event: WindowEvent,
)
    requires
        m.wf(),
    ensures
        progress(m.phase()) <= progress(m.create_window(attempt).0.phase()),
        progress(m.phase()) <= progress(m.resumed(attempt).0.phase()),
        progress(m.phase()) <= progress(m.window_event(id, event).0.phase()),
        progress(m.phase()) <= progress(m.about_to_wait().0.phase()),
        progress(m.phase()) <= progress(m.exiting().phase()),
{
}

/// No handler leads out of the well-formed states.
pub proof fn handlers_preserve_wf<C, H>(
    m: Controller<C, H>,
    attempt: WindowAttempt<H>,
    id: WindowId,
    event: WindowEvent,
)
    requires
        m.wf(),
    ensures
        m.create_window(attempt).0.wf(),
        m.resumed(attempt).0.wf(),
        m.window_event(id, event).0.wf(),
        m.about_to_wait().0.wf(),
        m.exiting().wf(),
{
    assert(m.exiting().windows.is_empty());
}

/// One call of a handler that can change the state.
pub enum Step<H> {
    /// A window was asked for and the attempt is handed in.
    CreateWindow(WindowAttempt<H>),
    /// The loop became active and the attempt at the initial window is
    /// handed in.
    Resumed(WindowAttempt<H>),
    /// An event arrived for a window.
    Window(WindowId, WindowEvent),
    /// The loop made its idle check.
    AboutToWait,
    /// The loop was left.
    Exiting,
}

/// The state after one step.
pub open spec fn after<C, H>(m: Controller<C, H>, step: Step<H>) -> Controller<C, H> {
    match step {
        Step::CreateWindow(attempt) => m.create_window(attempt).0,
        Step::Resumed(attempt) => m.resumed(attempt).0,
        Step::Window(id, event) => m.window_event(id, event).0,
        Step::AboutToWait => m.about_to_wait().0,
        Step::Exiting => m.exiting(),
    }
}

/// The state after all of `steps`, taken in order.
pub open spec fn after_all<C, H>(m: Controller<C, H>, steps: Seq<Step<H>>) -> Controller<C, H> {
    steps.fold_left(m, |state: Controller<C, H>, step: Step<H>| after(state, step))
}

/// Whatever the handlers are called with and in whatever order, the
/// application stays well formed and keeps its icon: the drawing context is
/// there for as long as any window is registered, and no window is
/// registered once the loop has been told to stop.
pub proof fn every_state_is_well_formed<C, H>(context: C, icon: IconData, steps: Seq<Step<H>>)
    requires
        icon.wf(),
    ensures
        after_all(Controller::<C, H>::initial(context, icon), steps).wf(),
        after_all(Controller::<C, H>::initial(context, icon), steps).icon == icon,
        !after_all(Controller::<C, H>::initial(context, icon), steps).windows.is_empty()
            ==> after_all(Controller::<C, H>::initial(context, icon), steps).context is Some,
        after_all(Controller::<C, H>::initial(context, icon), steps).exit_requested ==> after_all(
            Controller::<C, H>::initial(context, icon),
            steps,
        ).windows.is_empty(),
    decreases steps.len(),
{
    if steps.len() > 0 {
        every_state_is_well_formed::<C, H>(context, icon, steps.drop_last());
        let before = after_all(Controller::<C, H>::initial(context, icon), steps.drop_last());
        assert(before.exiting().windows.is_empty());
    }
}

/// Only leaving the loop releases the drawing context, and nothing ever
/// changes the icon.
pub proof fn context_and_icon_stay<C, H>(
    m: Controller<C, H>,
    attempt: WindowAttempt<H>,
    id: WindowId,
    event: WindowEvent,
)
    ensures
        m.create_window(attempt).0.context == m.context,
        m.resumed(attempt).0.context == m.context,
        m.window_event(id, event).0.context == m.context,
        m.about_to_wait().0.context == m.context,
        m.create_window(attempt).0.icon == m.icon,
        m.resumed(attempt).0.icon == m.icon,
        m.window_event(id, event).0.icon == m.icon,
        m.about_to_wait().0.icon == m.icon,
        m.exiting().icon == m.icon,
{
}

/// The drawing context is there for as long as any window is registered.
pub proof fn context_outlives_windows<C, H>(m: Controller<C, H>)
    requires
        m.wf(),
        !m.windows.is_empty(),
    ensures
        m.context is Some,
        m.phase() == Phase::Running,
{
}

/// An event for a window that is not registered changes nothing and asks
/// nothing of the shell.
pub proof fn unknown_window_is_ignored<C, H>(m: Controller<C, H>, id: WindowId, event: WindowEvent)
    requires
        !m.windows.contains_key(id),
    ensures
        m.window_event(id, event) == (m, WindowAction::Ignore),
{
}

/// Only a close request changes the state, and a window event never
/// registers a window.
pub proof fn window_event_only_closes<C, H>(m: Controller<C, H>, id: WindowId, event: WindowEvent)
    ensures
        !(event is CloseRequested) ==> m.window_event(id, event).0 == m,
        m.window_event(id, event).0.windows.dom().subset_of(m.windows.dom()),
        forall|other: WindowId|
            other != id && m.windows.contains_key(other) ==> #[trigger] m.window_event(
                id,
                event,
            ).0.windows.contains_key(other) && m.window_event(id, event).0.windows[other]
                == m.windows[other],
{
}

/// When a window is created, the registry holds it under the id that is
/// returned and is otherwise as before. If the id was not registered, the
/// registry has grown by exactly this one entry.
pub proof fn created_window_is_registered<C, H>(
    m: Controller<C, H>,
    attempt: WindowAttempt<H>,
    id: WindowId,
)
    requires
        m.wf(),
        m.create_window(attempt).1 == Ok::<WindowId, CreateWindowError>(id),
    ensures
        attempt matches WindowAttempt::Built { id: built, width, height, handle } && built == id
            && m.create_window(attempt).0.windows[id].handle == handle && m.create_window(
            attempt,
        ).0.windows[id].width == width && m.create_window(attempt).0.windows[id].height
            == height,
        m.create_window(attempt).0.windows.dom() == m.windows.dom().insert(id),
        m.create_window(attempt).0.windows.remove(id) == m.windows.remove(id),
        !m.windows.contains_key(id) ==> m.create_window(attempt).0.windows.len()
            == m.windows.len() + 1,
        m.create_window(attempt).0.phase() == Phase::Running,
{
    let next = m.create_window(attempt).0;
    assert(next.windows.dom() =~= m.windows.dom().insert(id));
    assert(next.windows.remove(id) =~= m.windows.remove(id));
    assert(next.windows.contains_key(id));
}

/// Creating a window fails exactly when the shell was refused, the window
/// has no area, or the loop is stopping; a failure leaves the state as it
/// was.
pub proof fn create_window_fails_cleanly<C, H>(m: Controller<C, H>, attempt: WindowAttempt<H>)
    ensures
        m.create_window(attempt).1 is Err <==> !(attempt is Built) || attempt->width == 0
            || attempt->height == 0 || !m.accepts_windows(),
        m.create_window(attempt).1 is Err ==> m.create_window(attempt).0 == m,
{
}

/// A window of zero physical width or height is turned down with a sizing
/// error, and nothing is registered.
pub proof fn zero_sized_window_is_refused<C, H>(
    m: Controller<C, H>,
    id: WindowId,
    width: u32,
    height: u32,
    handle: H,
)
    requires
        width == 0 || height == 0,
    ensures
        m.create_window(WindowAttempt::Built { id, width, height, handle }) == (
            m,
            Err::<WindowId, CreateWindowError>(
                CreateWindowError::SurfaceSize(SurfaceError::ZeroSized { width, height }),
            ),
        ),
{
}

/// After a close request the window is no longer registered, every other
/// window is, and a second close request for it changes nothing.
pub proof fn close_is_idempotent<C, H>(m: Controller<C, H>, id: WindowId)
    ensures
        !m.window_event(id, WindowEvent::CloseRequested).0.windows.contains_key(id),
        m.window_event(id, WindowEvent::CloseRequested).0.windows == m.windows.remove(id),
        m.window_event(id, WindowEvent::CloseRequested).0.window_event(
            id,
            WindowEvent::CloseRequested,
        ) == (m.window_event(id, WindowEvent::CloseRequested).0, WindowAction::Ignore),
{
    let next = m.window_event(id, WindowEvent::CloseRequested).0;
    assert(next.windows =~= m.windows.remove(id));
}

/// The idle check tells the loop to stop if and only if no window is
/// registered, and from then on no window is accepted.
pub proof fn idle_check_exits_iff_empty<C, H>(m: Controller<C, H>)
    ensures
        m.about_to_wait().1 == LoopControl::Exit <==> m.windows.is_empty(),
        m.about_to_wait().1 == LoopControl::Continue <==> !m.windows.is_empty(),
        m.about_to_wait().0.windows == m.windows,
        m.about_to_wait().0.context == m.context,
        m.about_to_wait().1 == LoopControl::Exit ==> !m.about_to_wait().0.accepts_windows(),
        m.about_to_wait().1 == LoopControl::Continue ==> m.about_to_wait().0 == m,
{
}

/// Once the loop has been told to stop, no window is ever registered again,
/// and every later idle check says stop.
pub proof fn exit_is_final<C, H>(
    m: Controller<C, H>,
    attempt: WindowAttempt<H>,
    id: WindowId,
    event: WindowEvent,
)
    requires
        m.wf(),
        m.exit_requested,
    ensures
        m.create_window(attempt).0 == m,
        m.create_window(attempt).1 is Err,
        attempt matches WindowAttempt::Built { width, height, .. } && width > 0 && height > 0
            ==> m.create_window(attempt).1 == Err::<WindowId, CreateWindowError>(
            CreateWindowError::LoopExiting,
        ),
        m.window_event(id, event) == (m, WindowAction::Ignore),
        m.about_to_wait() == (m, LoopControl::Exit),
{
}

/// Leaving the loop releases the context after the last window: no window
/// and no context are left, and leaving twice is leaving once.
pub proof fn exiting_releases_everything<C, H>(m: Controller<C, H>)
    ensures
        m.exiting().windows.is_empty(),
        m.exiting().context is None,
        m.exiting().phase() == Phase::Terminated,
        !m.exiting().accepts_windows(),
        m.exiting().exiting() == m.exiting(),
{
    assert(m.exiting().windows.is_empty());
}

} // verus!
