//! Core engine of a terminal audio player: the play queue, the playback
//! state machine, loop and shuffle policies, volume and mute handling, and
//! the command model that drives them. Rendering, key decoding, file and
//! audio-device access live outside this crate and talk to it through plain
//! values.
use vstd::prelude::*;

pub mod app;
pub mod cache;
pub mod cli;
pub mod cmdline;
pub mod commands;
pub mod config;
pub mod player;
pub mod playlist;
pub mod text;
pub mod time;
pub mod track;
pub mod traits;
pub mod view;
pub mod widget;

verus! {

/// What the caller of an update step should do next.
#[derive(Debug, Clone, Copy, PartialEq, Eq, Structural)]
pub enum Action {
    Nope,
    Draw,
    Resize(u16, u16),
    Quit,
}

impl Action {
    /// Combines two requested actions: the left one wins unless it is `Nope`.
    pub fn or(self, rhs: Action) -> (r: Action)
        ensures
            r == if self == Action::Nope {
                rhs
            } else {
                self
            },
    {
        if self == Action::Nope {
            rhs
        } else {
            self
        }
    }
}

} // verus!
