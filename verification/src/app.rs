//! Interface-level state: the active view, the input mode and the current
//! notification.
use vstd::prelude::*;
use vstd::view::View as _;

verus! {

/// Which screen the interface is showing.
#[derive(Debug, Clone, Copy, PartialEq, Eq, Structural)]
pub enum View {
    Player,
    Playlists,
    Tracks,
    Queue,
}

impl View {
    pub open spec fn spec_cycle_next(self) -> View {
        match self {
            View::Player => View::Playlists,
            View::Playlists => View::Tracks,
            View::Tracks => View::Queue,
            View::Queue => View::Player,
        }
    }

    pub open spec fn spec_cycle_prev(self) -> View {
        match self {
            View::Queue => View::Tracks,
            View::Tracks => View::Playlists,
            View::Playlists => View::Player,
            View::Player => View::Queue,
        }
    }

    pub fn cycle_next(&self) -> (r: View)
        ensures
            r == self.spec_cycle_next(),
    {
        match self {
            View::Player => View::Playlists,
            View::Playlists => View::Tracks,
            View::Tracks => View::Queue,
            View::Queue => View::Player,
        }
    }

    pub fn cycle_prev(&self) -> (r: View)
        ensures
            r == self.spec_cycle_prev(),
    {
        match self {
            View::Queue => View::Tracks,
            View::Tracks => View::Playlists,
            View::Playlists => View::Player,
            View::Player => View::Queue,
        }
    }
}

impl Default for View {
    /// The interface opens on the playlists view.
    fn default() -> (r: View)
        ensures
            r == View::Playlists,
    {
        View::Playlists
    }
}

/// Input mode of the interface.
#[derive(Debug, Clone, Copy, PartialEq, Eq, Structural)]
pub enum Mode {
    Normal,
    Cmd,
}

/// A message shown to the user, either informational or an error.
#[derive(Debug, Clone)]
pub enum Notif {
    Normal(String),
    Error(String),
}

impl Notif {
    /// The message text, whatever its severity.
    pub open spec fn spec_value(self) -> Seq<char> {
        match self {
            Notif::Normal(v) => v@,
            Notif::Error(v) => v@,
        }
    }

    pub fn value(&self) -> (r: &String)
        ensures
            r@ == self.spec_value(),
    {
        match self {
            Notif::Normal(v) => v,
            Notif::Error(v) => v,
        }
    }
}

/// Interface state shared by every view.
pub struct State {
    /// Current input mode.
    pub mode: Mode,
    /// Current view.
    pub view: View,
    /// Pending notification, if any.
    pub notif: Option<Notif>,
}

impl State {
    pub fn enter_mode(&mut self, mode: Mode)
        ensures
            *final(self) == (State { mode, ..*old(self) }),
    {
        self.mode = mode;
    }

    pub fn next_view(&mut self)
        ensures
            *final(self) == (State { view: old(self).view.spec_cycle_next(), ..*old(self) }),
    {
        self.view = self.view.cycle_next();
    }

    pub fn prev_view(&mut self)
        ensures
            *final(self) == (State { view: old(self).view.spec_cycle_prev(), ..*old(self) }),
    {
        self.view = self.view.cycle_prev();
    }

    pub fn notify(&mut self, notif: Notif)
        ensures
            *final(self) == (State { notif: Some(notif), ..*old(self) }),
    {
        self.notif = Some(notif);
    }
}

} // verus!
