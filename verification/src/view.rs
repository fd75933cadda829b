//! The three interactive views: player, playlists and queue.
//!
//! Drawing and key decoding happen outside the crate; what lives here is
//! each view's selection state and the queue operations it triggers.
use vstd::prelude::*;

use crate::player::{PlaybackError, PlaybackResult, Player};
use crate::widget::{ListEvent, ListState};

verus! {

/// The full-screen player view; it has no state of its own.
#[derive(Debug)]
pub struct PlayerView {}

impl PlayerView {
    pub fn new() -> (r: PlayerView) {
        PlayerView {  }
    }
}

/// The playlists view: one list over the playlists and one over the
/// chosen playlist's tracks.
#[derive(Debug)]
pub struct PlaylistsView {
    pub playlists_state: ListState,
    pub tracks_state: ListState,
}

impl PlaylistsView {
    pub fn new() -> (r: PlaylistsView)
        ensures
            r.playlists_state == ListState::spec_initial(),
            r.tracks_state == ListState::spec_initial(),
    {
        PlaylistsView { playlists_state: ListState::new(), tracks_state: ListState::new() }
    }

    /// The selected playlist.
    pub fn cur_playlist(&self) -> (r: usize)
        ensures
            r == self.playlists_state.current,
    {
        self.playlists_state.current()
    }

    /// The selected track within the chosen playlist.
    pub fn cur_track(&self) -> (r: usize)
        ensures
            r == self.tracks_state.current,
    {
        self.tracks_state.current()
    }

    /// Plays the selected playlist from its first track.
    pub fn play_playlist(&self, player: &mut Player) -> (r: PlaybackResult)
        requires
            old(player).wf(),
        ensures
            final(player).wf(),
            old(player).play_playlist_post(
                self.playlists_state.current,
                0,
                *final(player),
                r,
            ),
    {
        player.play_playlist(self.cur_playlist(), 0)
    }

    /// Plays the selected track of the selected playlist.
    pub fn play_track(&self, player: &mut Player) -> (r: PlaybackResult)
        requires
            old(player).wf(),
        ensures
            final(player).wf(),
            old(player).play_playlist_post(
                self.playlists_state.current,
                self.tracks_state.current,
                *final(player),
                r,
            ),
    {
        player.play_playlist(self.cur_playlist(), self.cur_track())
    }
}

/// The queue view: a list over the queued entries.
#[derive(Debug)]
pub struct QueueView {
    pub list_state: ListState,
}

impl QueueView {
    pub fn new() -> (r: QueueView)
        ensures
            r.list_state == ListState::spec_initial(),
    {
        QueueView { list_state: ListState::new() }
    }

    /// The selected queue entry.
    pub fn cur_track(&self) -> (r: usize)
        ensures
            r == self.list_state.current,
    {
        self.list_state.current()
    }

    /// Moves the selection onto the entry that is playing, if one is.
    pub fn focus(&mut self, player: &Player) -> (r: ListEvent)
        requires
            old(self).list_state.wf(),
        ensures
            match player.cur_track_index {
                Some(i) => final(self).list_state.current == old(self).list_state.spec_clamped(i)
                    && r == ListEvent::Selected(final(self).list_state.current),
                None => *final(self) == *old(self) && r == ListEvent::Nope,
            },
    {
        match player.cur_track_index {
            Some(index) => self.list_state.select(index),
            None => ListEvent::Nope,
        }
    }

    /// Moves the selected entry up the queue by `jump` positions and
    /// follows it with the selection.
    pub fn move_up(&mut self, player: &mut Player, jump: usize) -> (r: PlaybackResult)
        requires
            old(self).list_state.wf(),
            old(player).wf(),
        ensures
            final(player).wf(),
            ({
                let cur = old(self).list_state.current;
                let len = old(player).queue@.len();
                let target = old(self).list_state.current.saturating_sub(jump);
                let to = if (target as int) < len - 1 {
                    target as int
                } else {
                    len - 1
                };
                &&& cur >= len ==> r == Err::<(), PlaybackError>(PlaybackError::NoTrack)
                    && *final(player) == *old(player) && *final(self) == *old(self)
                &&& cur < len ==> {
                    &&& r == Ok::<(), PlaybackError>(())
                    &&& final(player).queue@ == old(player).queue@.remove(cur as int).insert(
                        to,
                        old(player).queue@[cur as int],
                    )
                    &&& final(player).cur_track_index == (if old(player).cur_track_index == Some(
                        to as usize,
                    ) {
                        Some(cur)
                    } else if old(player).cur_track_index == Some(cur) {
                        Some(to as usize)
                    } else {
                        old(player).cur_track_index
                    })
                    &&& *final(player) == (Player {
                        queue: final(player).queue,
                        cur_track_index: final(player).cur_track_index,
                        elapsed: final(player).elapsed,
                        ..*old(player)
                    })
                    &&& final(self).list_state.current == old(self).list_state.spec_clamped(
                        target,
                    )
                    &&& final(self).list_state.scroll == old(
                        self,
                    ).list_state.spec_scroll_after_select(target)
                    &&& final(self).list_state == (ListState {
                        current: final(self).list_state.current,
                        scroll: final(self).list_state.scroll,
                        ..old(self).list_state
                    })
                }
            }),
    {
        let cur = self.list_state.current();
        let new_index = cur.saturating_sub(jump);
        player.queue_move_to(cur, new_index)?;
        self.list_state.select(new_index);
        Ok(())
    }

    /// Moves the selected entry down the queue by `jump` positions and
    /// follows it with the selection.
    pub fn move_down(&mut self, player: &mut Player, jump: usize) -> (r: PlaybackResult)
        requires
            old(self).list_state.wf(),
            old(player).wf(),
        ensures
            final(player).wf(),
            ({
                let cur = old(self).list_state.current;
                let len = old(player).queue@.len();
                let target = old(self).list_state.current.saturating_add(jump);
                let to = if (target as int) < len - 1 {
                    target as int
                } else {
                    len - 1
                };
                &&& cur >= len ==> r == Err::<(), PlaybackError>(PlaybackError::NoTrack)
                    && *final(player) == *old(player) && *final(self) == *old(self)
                &&& cur < len ==> {
                    &&& r == Ok::<(), PlaybackError>(())
                    &&& final(player).queue@ == old(player).queue@.remove(cur as int).insert(
                        to,
                        old(player).queue@[cur as int],
                    )
                    &&& final(player).cur_track_index == (if old(player).cur_track_index == Some(
                        to as usize,
                    ) {
                        Some(cur)
                    } else if old(player).cur_track_index == Some(cur) {
                        Some(to as usize)
                    } else {
                        old(player).cur_track_index
                    })
                    &&& *final(player) == (Player {
                        queue: final(player).queue,
                        cur_track_index: final(player).cur_track_index,
                        elapsed: final(player).elapsed,
                        ..*old(player)
                    })
                    &&& final(self).list_state.current == old(self).list_state.spec_clamped(
                        target,
                    )
                    &&& final(self).list_state.scroll == old(
                        self,
                    ).list_state.spec_scroll_after_select(target)
                    &&& final(self).list_state == (ListState {
                        current: final(self).list_state.current,
                        scroll: final(self).list_state.scroll,
                        ..old(self).list_state
                    })
                }
            }),
    {
        let cur = self.list_state.current();
        let new_index = cur.saturating_add(jump);
        player.queue_move_to(cur, new_index)?;
        self.list_state.select(new_index);
        Ok(())
    }
}

} // verus!
