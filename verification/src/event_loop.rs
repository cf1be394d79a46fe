//! The decisions of the event loop that drives a session: which events of
//! the platform concern the tracked window, what each does to the session,
//! and what the loop's driver has to carry out afterwards.

use vstd::prelude::*;
use crate::app::{App, AppView};
use crate::size::PhysicalSize;

verus! {

/// An event of a window, as far as the loop tells events apart.
#[derive(Clone, Copy, Debug, PartialEq, Eq, Structural)]
pub enum WindowEvent {
    /// The window was asked to close.
    CloseRequested,
    /// The window has a new physical size.
    Resized(PhysicalSize),
    /// The window's scale factor changed, and the platform suggests a new
    /// size along with it.
    ScaleFactorChanged,
    /// Any other event of a window.
    Other,
}

/// An event that the platform delivers to the loop.
#[derive(Clone, Copy, Debug, PartialEq, Eq, Structural)]
pub enum Event {
    /// An event of the window with the given id.
    WindowEvent { window_id: u64, event: WindowEvent },
    /// Any event that is not a window's.
    Other,
}

impl Event {
    /// The event `event` of the window `window_id`.
    pub open spec fn of_window(window_id: u64, event: WindowEvent) -> Event {
        Event::WindowEvent { window_id, event }
    }
}

/// Whether the loop goes on.
#[derive(Clone, Copy, Debug, PartialEq, Eq, Structural)]
pub enum LoopState {
    /// The loop waits for the next event.
    Running,
    /// The loop has been told to end. Nothing leads back from here.
    Exiting,
}

/// What the loop's driver has to carry out once an event is handled.
#[derive(Clone, Copy, Debug, PartialEq, Eq, Structural)]
pub enum Action {
    /// Nothing.
    Ignore,
    /// End the loop.
    Exit,
    /// A resize to `size` was handled. Where `reconfigure` is set, apply the
    /// session's configuration to the surface.
    Resize { size: PhysicalSize, reconfigure: bool },
    /// Ask the platform to keep `size` as the window's inner size in place of
    /// the size it suggests. Then go on as for a resize to `size`.
    KeepSize { size: PhysicalSize, reconfigure: bool },
}

/// The loop's state: the session, the id of the window it tracks, and
/// whether the loop goes on.
pub struct Dispatcher {
    app: App,
    window_id: u64,
    state: LoopState,
}

/// A dispatcher as a mathematical value.
pub struct DispatcherView {
    pub app: AppView,
    pub window_id: u64,
    pub state: LoopState,
}

impl DispatcherView {
    /// The event of the tracked window that `event` delivers, if it delivers
    /// one.
    pub open spec fn addressed(self, event: Event) -> Option<WindowEvent> {
        match event {
            Event::WindowEvent { window_id, event } => if window_id == self.window_id {
                Some(event)
            } else {
                None
            },
            Event::Other => None,
        }
    }

    /// What the driver has to carry out for `event`.
    pub open spec fn action(self, event: Event) -> Action {
        match self.addressed(event) {
            Some(WindowEvent::CloseRequested) => Action::Exit,
            Some(WindowEvent::Resized(size)) => Action::Resize {
                size,
                reconfigure: size.has_area(),
            },
            Some(WindowEvent::ScaleFactorChanged) => Action::KeepSize {
                size: self.app.size,
                reconfigure: self.app.size.has_area(),
            },
            Some(WindowEvent::Other) => Action::Ignore,
            None => Action::Ignore,
        }
    }

    /// The session once `event` is handled.
    pub open spec fn app_after(self, event: Event) -> AppView {
        match self.addressed(event) {
            Some(WindowEvent::Resized(size)) => self.app.resized(size),
            Some(WindowEvent::ScaleFactorChanged) => self.app.resized(self.app.size),
            _ => self.app,
        }
    }

    /// Whether the loop goes on once `event` is handled.
    pub open spec fn state_after(self, event: Event) -> LoopState {
        if self.addressed(event) == Some(WindowEvent::CloseRequested) {
            LoopState::Exiting
        } else {
            self.state
        }
    }

    /// The dispatcher once `event` is handled.
    pub open spec fn after(self, event: Event) -> DispatcherView {
        DispatcherView {
            app: self.app_after(event),
            window_id: self.window_id,
            state: self.state_after(event),
        }
    }
}

impl View for Dispatcher {
    type V = DispatcherView;

    closed spec fn view(&self) -> DispatcherView {
        DispatcherView { app: self.app@, window_id: self.window_id, state: self.state }
    }
}

impl Dispatcher {
    /// A running loop that drives `app` and tracks the window `window_id`.
    pub fn new(app: App, window_id: u64) -> (dispatcher: Dispatcher)
        ensures
            dispatcher@ == (DispatcherView { app: app@, window_id, state: LoopState::Running }),
    {
        Dispatcher { app, window_id, state: LoopState::Running }
    }

    /// Handles one event and says what the driver has to carry out for it.
    ///
    /// Only events of the tracked window are acted on. A close request ends
    /// the loop. A resize goes to the session. A change of scale factor
    /// leaves the session's size in force: the platform is to keep it, and
    /// the session is resized to the size it already has. Everything else
    /// is ignored.
    pub fn handle(&mut self, event: Event) -> (action: Action)
        ensures
            final(self)@ == old(self)@.after(event),
            action == old(self)@.action(event),
            final(self)@.app.wf(),
            old(self)@.addressed(event) is None ==> final(self)@ == old(self)@,
            old(self)@.addressed(event) is None ==> action == Action::Ignore,
            old(self)@.addressed(event) == Some(WindowEvent::CloseRequested)
                ==> final(self)@.state == LoopState::Exiting,
            old(self)@.addressed(event) != Some(WindowEvent::CloseRequested)
                ==> final(self)@.state == old(self)@.state,
            action == Action::Exit
                <==> old(self)@.addressed(event) == Some(WindowEvent::CloseRequested),
            old(self)@.addressed(event) == Some(WindowEvent::ScaleFactorChanged)
                ==> final(self)@.app == old(self)@.app,
    {
        proof {
            use_type_invariant(&self.app);
        }
        match event {
            Event::WindowEvent { window_id, event } => {
                if window_id == self.window_id {
                    match event {
                        WindowEvent::CloseRequested => {
                            self.state = LoopState::Exiting;
                            Action::Exit
                        },
                        WindowEvent::Resized(size) => {
                            let reconfigure = self.app.resize(size);
                            Action::Resize { size, reconfigure }
                        },
                        WindowEvent::ScaleFactorChanged => {
                            let size = self.app.size();
                            let reconfigure = self.app.resize(size);
                            Action::KeepSize { size, reconfigure }
                        },
                        WindowEvent::Other => Action::Ignore,
                    }
                } else {
                    Action::Ignore
                }
            },
            Event::Other => Action::Ignore,
        }
    }

    /// The session that the loop drives.
    pub fn app(&self) -> (app: &App)
        ensures
            app@ == self@.app,
    {
        &self.app
    }

    /// The id of the window whose events the loop acts on.
    pub fn window_id(&self) -> (window_id: u64)
        ensures
            window_id == self@.window_id,
    {
        self.window_id
    }

    /// Whether the loop goes on.
    pub fn state(&self) -> (state: LoopState)
        ensures
            state == self@.state,
    {
        self.state
    }
}

/// Handling an event keeps a well-formed session well-formed.
pub proof fn lemma_step_preserves_wf(dispatcher: DispatcherView, event: Event)
    requires
        dispatcher.app.wf(),
    ensures
        dispatcher.after(event).app.wf(),
{
}

/// The session of a well-formed dispatcher changes only by a resize of the
/// tracked window to a size with an area.
pub proof fn lemma_only_resize_changes_session(dispatcher: DispatcherView, event: Event)
    requires
        dispatcher.app.wf(),
        dispatcher.after(event).app != dispatcher.app,
    ensures
        dispatcher.addressed(event) matches Some(WindowEvent::Resized(size)) && size.has_area(),
{
}

/// A change of scale factor never changes the session's size, whichever
/// window it is for.
pub proof fn lemma_scale_factor_keeps_size(dispatcher: DispatcherView, window_id: u64)
    ensures
        dispatcher.after(Event::of_window(window_id, WindowEvent::ScaleFactorChanged)).app.size
            == dispatcher.app.size,
{
}

/// A close request for the tracked window ends the loop. One for any other
/// window leaves the dispatcher as it is, so that a running loop goes on.
pub proof fn lemma_close_only_for_tracked(dispatcher: DispatcherView, window_id: u64)
    ensures
        window_id == dispatcher.window_id ==> dispatcher.after(
            Event::of_window(window_id, WindowEvent::CloseRequested),
        ).state == LoopState::Exiting,
        window_id != dispatcher.window_id ==> dispatcher.after(
            Event::of_window(window_id, WindowEvent::CloseRequested),
        ) == dispatcher,
{
}

/// Nothing leads out of `Exiting`.
pub proof fn lemma_exiting_is_terminal(dispatcher: DispatcherView, event: Event)
    requires
        dispatcher.state == LoopState::Exiting,
    ensures
        dispatcher.after(event).state == LoopState::Exiting,
{
}

} // verus!
