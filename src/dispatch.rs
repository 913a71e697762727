use vstd::prelude::*;

use crate::surface::{RenderSurface, resized, valid_size};

verus! {

/// An event that reaches the window's loop. Window events carry the id of
/// the window they were raised for.
#[derive(Clone, Copy, Debug, PartialEq, Eq, Structural)]
pub enum Event {
    /// A wake signal from the background producer.
    Wake,
    /// The window's inner size changed.
    Resized { window: u64, width: u32, height: u32 },
    /// The platform asks for the window to be repainted.
    RedrawRequested { window: u64 },
    /// The user asked for the window to be closed.
    CloseRequested { window: u64 },
    /// Any other platform event.
    Other,
}

/// What the caller performs after one event has been dispatched.
#[derive(Clone, Copy, Debug, PartialEq, Eq, Structural)]
pub enum Action {
    /// Report that a wake signal arrived.
    ReportWake,
    /// Resize the pixel buffer to this size, then ask for a redraw.
    ResizeSurface { width: u32, height: u32 },
    /// Acquire the pixel buffer at this size, paint every cell, present it.
    Redraw { width: u32, height: u32 },
    /// Stop the loop: the window is closing.
    Exit,
    /// Nothing to do.
    Ignore,
}

/// The state of a running window as the dispatcher sees it.
pub struct AppState {
    pub window: u64,
    pub size: Option<(u32, u32)>,
    pub running: bool,
}

/// `e` is a window event raised for window `window`.
pub open spec fn targets(e: Event, window: u64) -> bool {
    match e {
        Event::Resized { window: w, .. } => w == window,
        Event::RedrawRequested { window: w } => w == window,
        Event::CloseRequested { window: w } => w == window,
        _ => false,
    }
}

/// The action that event `e` calls for in state `s`.
pub open spec fn action_for(s: AppState, e: Event) -> Action {
    if !s.running {
        Action::Ignore
    } else {
        match e {
            Event::Wake => Action::ReportWake,
            Event::Resized { window, width, height } => {
                if window == s.window && width > 0 && height > 0 {
                    Action::ResizeSurface { width, height }
                } else {
                    Action::Ignore
                }
            },
            Event::RedrawRequested { window } => {
                match s.size {
                    Some((w, h)) if window == s.window => Action::Redraw { width: w, height: h },
                    _ => Action::Ignore,
                }
            },
            Event::CloseRequested { window } => {
                if window == s.window {
                    Action::Exit
                } else {
                    Action::Ignore
                }
            },
            Event::Other => Action::Ignore,
        }
    }
}

/// The state that follows state `s` once event `e` has been dispatched.
pub open spec fn next_state(s: AppState, e: Event) -> AppState {
    if !s.running {
        s
    } else {
        match e {
            Event::Resized { window, width, height } if window == s.window => AppState {
                size: resized(s.size, width, height),
                ..s
            },
            Event::CloseRequested { window } if window == s.window => AppState {
                running: false,
                ..s
            },
            _ => s,
        }
    }
}

/// A window with its render surface, dispatching one event at a time.
pub struct App {
    window: u64,
    surface: RenderSurface,
    running: bool,
}

impl View for App {
    type V = AppState;

    closed spec fn view(&self) -> AppState {
        AppState { window: self.window, size: self.surface@, running: self.running }
    }
}

impl App {
    /// The surface's size, once it has one, has two positive sides.
    pub open spec fn wf(&self) -> bool {
        valid_size(self@.size)
    }

    /// Starts running for the window with id `window`, whose inner size is
    /// `width` by `height`; the surface takes that size where both sides are
    /// positive.
    pub fn new(window: u64, width: u32, height: u32) -> (app: Self)
        ensures
            app@ == (AppState {
                window,
                size: resized(None, width, height),
                running: true,
            }),
            app.wf(),
    {
        let mut surface = RenderSurface::new();
        surface.resize(width, height);
        App { window, surface, running: true }
    }

    /// Whether events are still being dispatched.
    pub fn is_running(&self) -> (r: bool)
        ensures
            r == self@.running,
    {
        self.running
    }

    /// The id of the window this dispatcher serves.
    pub fn window(&self) -> (r: u64)
        ensures
            r == self@.window,
    {
        self.window
    }

    /// The size of the render surface, once it has one.
    pub fn surface_size(&self) -> (r: Option<(u32, u32)>)
        ensures
            r == self@.size,
    {
        self.surface.size()
    }

    /// Dispatches one event: events for another window, and every event
    /// once the window is closing, are ignored.
    pub fn dispatch(&mut self, e: Event) -> (a: Action)
        requires
            old(self).wf(),
        ensures
            a == action_for(old(self)@, e),
            final(self)@ == next_state(old(self)@, e),
            final(self).wf(),
    {
        if !self.running {
            return Action::Ignore;
        }
        match e {
            Event::Wake => Action::ReportWake,
            Event::Resized { window, width, height } => {
                if window != self.window {
                    Action::Ignore
                } else if self.surface.resize(width, height) {
                    Action::ResizeSurface { width, height }
                } else {
                    Action::Ignore
                }
            },
            Event::RedrawRequested { window } => {
                if window != self.window {
                    return Action::Ignore;
                }
                match self.surface.size() {
                    Some((w, h)) => Action::Redraw { width: w, height: h },
                    None => Action::Ignore,
                }
            },
            Event::CloseRequested { window } => {
                if window != self.window {
                    Action::Ignore
                } else {
                    self.running = false;
                    Action::Exit
                }
            },
            Event::Other => Action::Ignore,
        }
    }
}

/// Once the window is closing, no event changes the state or calls for any
/// action.
pub proof fn lemma_terminated_is_final(s: AppState, e: Event)
    requires
        !s.running,
    ensures
        next_state(s, e) == s,
        action_for(s, e) == Action::Ignore,
{
}

/// Events raised for another window, and wake signals, leave the state as
/// it was.
pub proof fn lemma_foreign_events_change_nothing(s: AppState, e: Event)
    requires
        !targets(e, s.window),
    ensures
        next_state(s, e) == s,
{
}

/// A redraw asks for exactly the surface's current size, so the buffer that
/// gets painted always matches the window's last positive size.
pub proof fn lemma_redraw_matches_surface(s: AppState, e: Event)
    requires
        valid_size(s.size),
    ensures
        action_for(s, e) matches Action::Redraw { width, height } ==> s.size == Some((width, height))
            && width > 0 && height > 0,
{
}

} // verus!
