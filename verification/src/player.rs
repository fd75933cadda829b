//! The player engine: queue, playback state machine, loop and volume policy.
//!
//! The engine is the single writer of player state. It models the audio
//! backend as a [`Session`]: the outside driver mirrors every change of the
//! model onto the real device, and reports the observed position and whether
//! the sink has drained through [`Player::handle_tick`].
use vstd::prelude::*;
use vstd::view::View as _;

use std::rc::Rc;

use crate::playlist::Playlist;
use crate::time::{sat64, sum_durs, lemma_sum_durs_nonneg, lemma_sum_durs_remove,
    lemma_sum_durs_insert};
use crate::track::{rc_dup, Id, Track};
use crate::traits::{MoveTo, Shuffle};

verus! {

/// Highest settable volume, in percent of normal loudness.
pub const MAX_VOLUME: u16 = 200;

/// Why a player operation could not be carried out.
#[derive(Debug, Clone, Copy, PartialEq, Eq, Structural)]
pub enum PlaybackError {
    /// The outside driver could not open the file.
    Io,
    /// The outside driver could not start decoding.
    Play,
    /// The outside driver could not seek.
    Seek,
    /// The operation needs a loaded session and none is.
    NoAudio,
    /// No track at that index.
    NoTrack,
    /// No playlist at that index.
    NoPlaylist,
    /// The operation needs a current track and none is set.
    NotPlaying,
    /// The edge of the queue was reached without a loop policy.
    NoMore,
    /// A structural operation was asked of an empty queue.
    EmptyQueue,
}

impl PlaybackError {
    /// Whether the error is an expected boundary condition — nothing
    /// loaded, an index past the edge, an empty queue — which the calling
    /// layer passes over silently, as opposed to a device failure that is
    /// shown to the user.
    pub open spec fn spec_is_boundary(self) -> bool {
        match self {
            PlaybackError::NoAudio => true,
            PlaybackError::NoTrack => true,
            PlaybackError::NoPlaylist => true,
            PlaybackError::NotPlaying => true,
            PlaybackError::NoMore => true,
            PlaybackError::EmptyQueue => true,
            PlaybackError::Io => false,
            PlaybackError::Play => false,
            PlaybackError::Seek => false,
        }
    }

    pub fn is_boundary(&self) -> (r: bool)
        ensures
            r == self.spec_is_boundary(),
    {
        match self {
            PlaybackError::NoAudio
            | PlaybackError::NoTrack
            | PlaybackError::NoPlaylist
            | PlaybackError::NotPlaying
            | PlaybackError::NoMore
            | PlaybackError::EmptyQueue => true,
            PlaybackError::Io | PlaybackError::Play | PlaybackError::Seek => false,
        }
    }
}

pub type PlaybackResult = Result<(), PlaybackError>;

/// The state the playback is in, derived, never stored.
#[derive(Debug, Clone, Copy, PartialEq, Eq, Structural)]
pub enum PlayState {
    Playing,
    Paused,
    Stopped,
    /// A session is loaded but has drained to its end.
    Ended,
}

impl PlayState {
    pub fn text(&self) -> (r: &'static str)
        ensures
            r@ == match *self {
                PlayState::Playing => "playing"@,
                PlayState::Paused => "paused"@,
                PlayState::Stopped => "stopped"@,
                PlayState::Ended => "ended"@,
            },
    {
        match self {
            PlayState::Playing => "playing",
            PlayState::Paused => "paused",
            PlayState::Stopped => "stopped",
            PlayState::Ended => "ended",
        }
    }
}

/// What happens when the last queue entry finishes.
#[derive(Debug, Clone, Copy, PartialEq, Eq, Structural)]
pub enum LoopState {
    /// No looping: the queue just ends.
    Off,
    /// Repeat the queue from its first entry.
    Queue,
    /// Shuffle the queue, then repeat it.
    Shuffle,
}

impl LoopState {
    pub open spec fn spec_cycle_next(self) -> LoopState {
        match self {
            LoopState::Off => LoopState::Queue,
            LoopState::Queue => LoopState::Shuffle,
            LoopState::Shuffle => LoopState::Off,
        }
    }

    pub open spec fn spec_cycle_prev(self) -> LoopState {
        match self {
            LoopState::Shuffle => LoopState::Queue,
            LoopState::Queue => LoopState::Off,
            LoopState::Off => LoopState::Shuffle,
        }
    }

    pub fn cycle_next(&self) -> (r: LoopState)
        ensures
            r == self.spec_cycle_next(),
    {
        match self {
            LoopState::Off => LoopState::Queue,
            LoopState::Queue => LoopState::Shuffle,
            LoopState::Shuffle => LoopState::Off,
        }
    }

    pub fn cycle_prev(&self) -> (r: LoopState)
        ensures
            r == self.spec_cycle_prev(),
    {
        match self {
            LoopState::Shuffle => LoopState::Queue,
            LoopState::Queue => LoopState::Off,
            LoopState::Off => LoopState::Shuffle,
        }
    }

    pub fn text(&self) -> (r: &'static str)
        ensures
            r@ == match *self {
                LoopState::Off => "none"@,
                LoopState::Queue => "queue"@,
                LoopState::Shuffle => "shuffle"@,
            },
    {
        match self {
            LoopState::Off => "none",
            LoopState::Queue => "queue",
            LoopState::Shuffle => "shuffle",
        }
    }
}

/// The playback states the remote-control model distinguishes: it has no
/// notion of a drained session.
#[derive(Debug, Clone, Copy, PartialEq, Eq, Structural)]
pub enum RemotePlayStatus {
    Playing,
    Paused,
    Stopped,
}

/// The loop states the remote-control model distinguishes: either no
/// looping, or looping over the playlist.
#[derive(Debug, Clone, Copy, PartialEq, Eq, Structural)]
pub enum RemoteLoopStatus {
    Off,
    Playlist,
}

impl PlayState {
    /// How the state reads to the remote-control model: a drained session
    /// counts as stopped.
    pub open spec fn spec_remote_status(self) -> RemotePlayStatus {
        match self {
            PlayState::Playing => RemotePlayStatus::Playing,
            PlayState::Paused => RemotePlayStatus::Paused,
            PlayState::Stopped => RemotePlayStatus::Stopped,
            PlayState::Ended => RemotePlayStatus::Stopped,
        }
    }

    pub fn remote_status(&self) -> (r: RemotePlayStatus)
        ensures
            r == self.spec_remote_status(),
    {
        match self {
            PlayState::Playing => RemotePlayStatus::Playing,
            PlayState::Paused => RemotePlayStatus::Paused,
            PlayState::Stopped | PlayState::Ended => RemotePlayStatus::Stopped,
        }
    }
}

impl LoopState {
    /// How the loop policy reads to the remote-control model: repeating
    /// with or without shuffling both count as looping the playlist;
    /// shuffling itself is surfaced separately.
    pub open spec fn spec_remote_status(self) -> RemoteLoopStatus {
        match self {
            LoopState::Off => RemoteLoopStatus::Off,
            LoopState::Queue => RemoteLoopStatus::Playlist,
            LoopState::Shuffle => RemoteLoopStatus::Playlist,
        }
    }

    pub fn remote_status(&self) -> (r: RemoteLoopStatus)
        ensures
            r == self.spec_remote_status(),
    {
        match self {
            LoopState::Off => RemoteLoopStatus::Off,
            LoopState::Queue | LoopState::Shuffle => RemoteLoopStatus::Playlist,
        }
    }
}

/// The loaded audio session as the engine believes it to be.
#[derive(Debug, Clone, Copy)]
pub struct Session {
    /// Authoritative track length in milliseconds for seek clamping, when
    /// known.
    pub duration: Option<u64>,
    /// Playhead position in milliseconds, as last observed or requested.
    pub pos: u64,
    /// Whether the sink is paused.
    pub paused: bool,
    /// Whether the sink has drained to its end.
    pub drained: bool,
    /// The volume last applied to the sink, in percent.
    pub applied_volume: u16,
}

/// The engine's model of the audio backend: at most one live session.
#[derive(Debug, Clone, Copy)]
pub struct Playback {
    pub session: Option<Session>,
}

impl Playback {
    /// Where a seek to `pos` actually lands: clamped to one second before
    /// the end whenever the track length is known.
    pub open spec fn spec_seek_target(self, pos: u64) -> u64 {
        match self.session {
            Some(s) => match s.duration {
                Some(d) => {
                    let limit = if d >= 1000 {
                        (d - 1000) as u64
                    } else {
                        0u64
                    };
                    if pos <= limit {
                        pos
                    } else {
                        limit
                    }
                },
                None => pos,
            },
            None => pos,
        }
    }

    /// Replaces whatever was loaded with a fresh session.
    pub fn load(&mut self, duration: Option<u64>, volume: u16)
        ensures
            final(self).session == Some(Session {
                duration,
                pos: 0u64,
                paused: false,
                drained: false,
                applied_volume: volume,
            }),
    {
        self.session = Some(Session {
            duration,
            pos: 0,
            paused: false,
            drained: false,
            applied_volume: volume,
        });
    }

    pub fn resume(&mut self) -> (r: PlaybackResult)
        ensures
            match old(self).session {
                None => r == Err::<(), PlaybackError>(PlaybackError::NoAudio) && *final(self)
                    == *old(self),
                Some(s) => r == Ok::<(), PlaybackError>(()) && final(self).session == Some(
                    Session { paused: false, ..s },
                ),
            },
    {
        match &mut self.session {
            None => Err(PlaybackError::NoAudio),
            Some(s) => {
                s.paused = false;
                Ok(())
            },
        }
    }

    pub fn pause(&mut self) -> (r: PlaybackResult)
        ensures
            match old(self).session {
                None => r == Err::<(), PlaybackError>(PlaybackError::NoAudio) && *final(self)
                    == *old(self),
                Some(s) => r == Ok::<(), PlaybackError>(()) && final(self).session == Some(
                    Session { paused: true, ..s },
                ),
            },
    {
        match &mut self.session {
            None => Err(PlaybackError::NoAudio),
            Some(s) => {
                s.paused = true;
                Ok(())
            },
        }
    }

    pub fn stop(&mut self) -> (r: PlaybackResult)
        ensures
            match old(self).session {
                None => r == Err::<(), PlaybackError>(PlaybackError::NoAudio) && *final(self)
                    == *old(self),
                Some(s) => r == Ok::<(), PlaybackError>(()) && final(self).session is None,
            },
    {
        match &self.session {
            None => Err(PlaybackError::NoAudio),
            Some(_) => {
                self.session = None;
                Ok(())
            },
        }
    }

    /// Moves the playhead, clamping to one second before the end when the
    /// track length is known, since decoders may fail to seek right at the
    /// end of the stream.
    pub fn seek(&mut self, pos: u64) -> (r: PlaybackResult)
        ensures
            match old(self).session {
                None => r == Err::<(), PlaybackError>(PlaybackError::NoAudio) && *final(self)
                    == *old(self),
                Some(s) => r == Ok::<(), PlaybackError>(()) && final(self).session == Some(
                    Session { pos: old(self).spec_seek_target(pos), ..s },
                ),
            },
    {
        match &mut self.session {
            None => Err(PlaybackError::NoAudio),
            Some(s) => {
                let target = match s.duration {
                    Some(d) => {
                        let limit = if d >= 1000 {
                            d - 1000
                        } else {
                            0
                        };
                        if pos <= limit {
                            pos
                        } else {
                            limit
                        }
                    },
                    None => pos,
                };
                s.pos = target;
                Ok(())
            },
        }
    }

    pub fn set_volume(&mut self, volume: u16) -> (r: PlaybackResult)
        ensures
            match old(self).session {
                None => r == Err::<(), PlaybackError>(PlaybackError::NoAudio) && *final(self)
                    == *old(self),
                Some(s) => r == Ok::<(), PlaybackError>(()) && final(self).session == Some(
                    Session { applied_volume: volume, ..s },
                ),
            },
    {
        match &mut self.session {
            None => Err(PlaybackError::NoAudio),
            Some(s) => {
                s.applied_volume = volume;
                Ok(())
            },
        }
    }

    /// The playhead position, when a session is loaded.
    pub fn pos(&self) -> (r: Option<u64>)
        ensures
            r == match self.session {
                Some(s) => Some(s.pos),
                None => None::<u64>,
            },
    {
        match &self.session {
            Some(s) => Some(s.pos),
            None => None,
        }
    }
}

/// One entry of the play queue: a track, either on its own or taken from
/// the playlist at the remembered index.
#[derive(Debug)]
pub enum QueueTrack {
    Single(Rc<Track>),
    Playlist(Rc<Track>, usize),
}

impl QueueTrack {
    pub open spec fn spec_track(self) -> Rc<Track> {
        match self {
            QueueTrack::Single(t) => t,
            QueueTrack::Playlist(t, _) => t,
        }
    }

    pub open spec fn spec_playlist_index(self) -> Option<usize> {
        match self {
            QueueTrack::Single(_) => None,
            QueueTrack::Playlist(_, i) => Some(i),
        }
    }

    pub open spec fn spec_id(self) -> Id {
        self.spec_track().id
    }

    pub open spec fn spec_duration(self) -> u64 {
        self.spec_track().spec_duration()
    }

    /// The track this entry plays.
    pub fn track(&self) -> (r: &Rc<Track>)
        ensures
            *r == self.spec_track(),
    {
        match self {
            QueueTrack::Single(t) => t,
            QueueTrack::Playlist(t, _) => t,
        }
    }

    /// The playlist this entry was queued from, if any.
    pub fn playlist_index(&self) -> (r: Option<usize>)
        ensures
            r == self.spec_playlist_index(),
    {
        match self {
            QueueTrack::Single(_) => None,
            QueueTrack::Playlist(_, i) => Some(*i),
        }
    }

    pub fn id(&self) -> (r: Id)
        ensures
            r == self.spec_id(),
    {
        self.track().id
    }

    /// The entry's length in milliseconds, zero when unknown.
    pub fn duration(&self) -> (r: u64)
        ensures
            r == self.spec_duration(),
    {
        self.track().duration()
    }
}

/// The duration of one queued entry, in milliseconds.
pub open spec fn entry_dur(t: Rc<QueueTrack>) -> u64 {
    t.spec_duration()
}

/// The identity of one queued entry.
pub open spec fn entry_id(t: Rc<QueueTrack>) -> Id {
    t.spec_id()
}

/// The durations of the queued entries, in milliseconds.
pub open spec fn queue_durs(s: Seq<Rc<QueueTrack>>) -> Seq<u64> {
    s.map_values(|t: Rc<QueueTrack>| t.spec_duration())
}

/// Sum of the durations of the first `upto` entries, saturating.
pub open spec fn elapsed_before(q: Seq<Rc<QueueTrack>>, upto: int) -> int {
    sat64(sum_durs(queue_durs(q.take(upto))))
}

/// The first entry carrying `id`, scanning from the front.
pub open spec fn find_by_id(s: Seq<Rc<QueueTrack>>, id: Id) -> Option<int>
    decreases s.len(),
{
    if s.len() == 0 {
        None
    } else if s[0].spec_id() == id {
        Some(0int)
    } else {
        match find_by_id(s.drop_first(), id) {
            Some(j) => Some(j + 1),
            None => None,
        }
    }
}

/// The volume clamped into `[0, MAX_VOLUME]`.
pub open spec fn clamp_volume(v: int) -> int {
    if v > MAX_VOLUME as int {
        MAX_VOLUME as int
    } else {
        v
    }
}

/// The volume actually sent to the sink: zero while muted, else the stored
/// volume. Muting never alters the stored volume.
pub open spec fn effective_volume(volume: u16, muted: bool) -> u16 {
    if muted {
        0
    } else {
        volume
    }
}

/// All tracks of the given playlists, in playlist order.
pub open spec fn all_playlist_tracks(pls: Seq<Playlist>) -> Seq<Rc<Track>>
    decreases pls.len(),
{
    if pls.len() == 0 {
        Seq::empty()
    } else {
        all_playlist_tracks(pls.drop_last()) + pls.last().tracks@
    }
}

/// The player engine.
pub struct Player {
    /// The engine's model of the audio backend.
    pub playback: Playback,
    pub queue: Vec<Rc<QueueTrack>>,
    pub playlists: Vec<Playlist>,
    /// Total queue length in milliseconds, saturating.
    pub queue_dur: u64,
    /// Summed length of the entries before the current one, milliseconds.
    pub elapsed: u64,
    /// The index that last triggered an automatic advance, so one track
    /// ending advances the queue exactly once.
    pub last_track_index: Option<usize>,
    pub cur_track_index: Option<usize>,
    pub cur_track: Option<Rc<QueueTrack>>,
    /// Stored volume in percent, within `[0, MAX_VOLUME]`.
    pub volume: u16,
    pub muted: bool,
    pub loopstate: LoopState,
}

impl Player {
    /// The engine invariant: the current index stays inside the queue and
    /// always has a loaded session and entry behind it, the stored volume
    /// stays clamped, and the cached aggregates match the queue.
    pub open spec fn wf(self) -> bool {
        &&& (self.cur_track_index is Some <==> self.cur_track is Some)
        &&& match self.cur_track_index {
            Some(i) => i < self.queue@.len() && self.playback.session is Some,
            None => true,
        }
        &&& self.volume <= MAX_VOLUME
        &&& self.queue_dur as int == sat64(sum_durs(queue_durs(self.queue@)))
        &&& self.elapsed as int == match self.cur_track_index {
            Some(i) => elapsed_before(self.queue@, i as int),
            None => 0,
        }
    }

    /// Exactly what `play_next` does: step forward, or at the last entry
    /// let the loop policy decide.
    pub open spec fn play_next_post(self, post: Player, r: PlaybackResult) -> bool {
        match self.cur_track_index {
            None => r == Err::<(), PlaybackError>(PlaybackError::NotPlaying) && post == self,
            Some(i) => if (i as int) + 1 < self.queue@.len() {
                r == Ok::<(), PlaybackError>(()) && post == self.spec_play((i + 1) as usize)
            } else {
                match self.loopstate {
                    LoopState::Off => r == Err::<(), PlaybackError>(PlaybackError::NoMore) && post
                        == self,
                    LoopState::Queue => r == Ok::<(), PlaybackError>(()) && post == self.spec_play(
                        0,
                    ),
                    LoopState::Shuffle => r == Ok::<(), PlaybackError>(())
                        && self.spec_shuffled_replay(post),
                }
            },
        }
    }

    /// Exactly what `play_prev` does: step back, with no loop-wrap.
    pub open spec fn play_prev_post(self, post: Player, r: PlaybackResult) -> bool {
        match self.cur_track_index {
            None => r == Err::<(), PlaybackError>(PlaybackError::NotPlaying) && post == self,
            Some(i) => if i == 0 {
                r == Err::<(), PlaybackError>(PlaybackError::NoMore) && post == self
            } else {
                r == Ok::<(), PlaybackError>(()) && post == self.spec_play((i - 1) as usize)
            },
        }
    }

    /// Exactly what `resume` does: restart a drained track, else unpause.
    pub open spec fn resume_post(self, post: Player, r: PlaybackResult) -> bool {
        if self.spec_playstate() == PlayState::Ended {
            match self.cur_track_index {
                Some(i) => r == Ok::<(), PlaybackError>(()) && post == self.spec_play(i),
                None => r == Ok::<(), PlaybackError>(()) && post == self,
            }
        } else {
            match self.playback.session {
                None => r == Err::<(), PlaybackError>(PlaybackError::NoAudio) && post == self,
                Some(s) => r == Ok::<(), PlaybackError>(()) && post == (Player {
                    playback: Playback { session: Some(Session { paused: false, ..s }) },
                    ..self
                }),
            }
        }
    }

    /// Exactly what `pause` does.
    pub open spec fn pause_post(self, post: Player, r: PlaybackResult) -> bool {
        match self.playback.session {
            None => r == Err::<(), PlaybackError>(PlaybackError::NoAudio) && post == self,
            Some(s) => r == Ok::<(), PlaybackError>(()) && post == (Player {
                playback: Playback { session: Some(Session { paused: true, ..s }) },
                ..self
            }),
        }
    }

    /// Exactly what `stop` does.
    pub open spec fn stop_post(self, post: Player, r: PlaybackResult) -> bool {
        &&& post == (Player {
            cur_track_index: None,
            cur_track: None,
            elapsed: 0u64,
            playback: Playback { session: None },
            ..self
        })
        &&& r == if self.playback.session is Some {
            Ok::<(), PlaybackError>(())
        } else {
            Err::<(), PlaybackError>(PlaybackError::NoAudio)
        }
    }

    /// Exactly what `toggle` does: pause when playing, else resume.
    pub open spec fn toggle_post(self, post: Player, r: PlaybackResult) -> bool {
        if self.spec_playstate() == PlayState::Playing {
            self.pause_post(post, r)
        } else {
            self.resume_post(post, r)
        }
    }

    /// Exactly what `seek` does.
    pub open spec fn seek_post(self, pos: u64, post: Player, r: PlaybackResult) -> bool {
        match self.playback.session {
            None => r == Err::<(), PlaybackError>(PlaybackError::NoAudio) && post == self,
            Some(s) => r == Ok::<(), PlaybackError>(()) && post == (Player {
                playback: Playback {
                    session: Some(Session { pos: self.playback.spec_seek_target(pos), ..s }),
                },
                ..self
            }),
        }
    }

    /// Exactly what `queue_clear` does.
    pub open spec fn queue_clear_post(self, post: Player, r: PlaybackResult) -> bool {
        &&& post == (Player {
            queue: post.queue,
            queue_dur: 0u64,
            cur_track_index: None,
            cur_track: None,
            elapsed: 0u64,
            playback: Playback { session: None },
            ..self
        })
        &&& post.queue@.len() == 0
        &&& r == if self.playback.session is Some {
            Ok::<(), PlaybackError>(())
        } else {
            Err::<(), PlaybackError>(PlaybackError::NoAudio)
        }
    }

    /// Whether an entry carrying `id` stands somewhere in the queue.
    pub open spec fn queue_has_id(q: Seq<Rc<QueueTrack>>, id: Id) -> bool {
        exists|j: int| 0 <= j < q.len() && q[j].spec_id() == id
    }

    /// Exactly what `queue_shuffle` does: same entries, the current track
    /// followed by identity. Whenever the current track's identity stands
    /// in the queue at all, the new current index points at it.
    pub open spec fn queue_shuffle_post(self, post: Player) -> bool {
        &&& post.queue@.to_multiset() == self.queue@.to_multiset()
        &&& post.queue@.len() == self.queue@.len()
        &&& post.cur_track == self.cur_track
        &&& post.cur_track_index == self.spec_relocated(post.queue@)
        &&& match self.cur_track {
            Some(t) => Player::queue_has_id(self.queue@, t.spec_id())
                ==> match post.cur_track_index {
                Some(k) => k < post.queue@.len() && post.queue@[k as int].spec_id() == t.spec_id(),
                None => false,
            },
            None => true,
        }
        &&& post.playback == self.playback
        &&& post.playlists == self.playlists
        &&& post.volume == self.volume
        &&& post.muted == self.muted
        &&& post.loopstate == self.loopstate
        &&& post.last_track_index == self.last_track_index
    }

    /// Exactly what `play_playlist` does: the queue is refilled from the
    /// playlist, and the asked-for track of it starts playing. A bad
    /// playlist index leaves the queue emptied; a bad track index leaves
    /// it refilled with nothing current. The session is untouched until
    /// the play succeeds.
    pub open spec fn play_playlist_post(
        self,
        playlist_index: usize,
        track_index: usize,
        post: Player,
        r: PlaybackResult,
    ) -> bool {
        if playlist_index as int >= self.playlists@.len() {
            &&& r == Err::<(), PlaybackError>(PlaybackError::NoPlaylist)
            &&& post == (Player {
                queue: post.queue,
                queue_dur: post.queue_dur,
                cur_track_index: None,
                cur_track: None,
                elapsed: 0u64,
                ..self
            })
            &&& post.queue@.len() == 0
        } else {
            let tracks = self.playlists@[playlist_index as int].tracks@;
            &&& post.queue@.len() == tracks.len()
            &&& forall|k: int|
                0 <= k < tracks.len() ==> post.queue@[k] == QueueTrack::Playlist(
                    tracks[k],
                    playlist_index,
                )
            &&& if track_index as int >= tracks.len() {
                &&& r == Err::<(), PlaybackError>(PlaybackError::NoTrack)
                &&& post == (Player {
                    queue: post.queue,
                    queue_dur: post.queue_dur,
                    cur_track_index: None,
                    cur_track: None,
                    elapsed: 0u64,
                    ..self
                })
            } else {
                &&& r == Ok::<(), PlaybackError>(())
                &&& post == (Player {
                    queue: post.queue,
                    queue_dur: post.queue_dur,
                    playback: Playback {
                        session: Some(
                            Session {
                                duration: tracks[track_index as int].spec_try_duration(),
                                pos: 0u64,
                                paused: false,
                                drained: false,
                                applied_volume: effective_volume(self.volume, self.muted),
                            },
                        ),
                    },
                    cur_track_index: Some(track_index),
                    cur_track: Some(post.queue@[track_index as int]),
                    elapsed: elapsed_before(post.queue@, track_index as int) as u64,
                    ..self
                })
            }
        }
    }

    /// The state the playback is in, derived from the session model.
    pub open spec fn spec_playstate(self) -> PlayState {
        match self.playback.session {
            None => PlayState::Stopped,
            Some(s) => if s.drained {
                PlayState::Ended
            } else if s.paused {
                PlayState::Paused
            } else {
                PlayState::Playing
            },
        }
    }

    /// How `play` updates the advance guard: replaying the index that
    /// already triggered an advance clears the guard, any other play moves
    /// it to the index that was current.
    pub open spec fn spec_next_last(self, track_index: usize) -> Option<usize> {
        match self.cur_track_index {
            Some(cur) => if self.last_track_index == Some(track_index) {
                None
            } else {
                Some(cur)
            },
            None => self.last_track_index,
        }
    }

    /// The state after successfully playing `queue[track_index]`: a fresh
    /// session at position zero with the track's known length and the
    /// effective volume applied, the entry loaded, and `elapsed` the summed
    /// length of the entries before it.
    pub open spec fn spec_play(self, track_index: usize) -> Player {
        let entry = self.queue@[track_index as int];
        Player {
            playback: Playback {
                session: Some(Session {
                    duration: entry.spec_track().spec_try_duration(),
                    pos: 0u64,
                    paused: false,
                    drained: false,
                    applied_volume: effective_volume(self.volume, self.muted),
                }),
            },
            last_track_index: self.spec_next_last(track_index),
            cur_track_index: Some(track_index),
            cur_track: Some(entry),
            elapsed: elapsed_before(self.queue@, track_index as int) as u64,
            ..self
        }
    }

    /// The state after storing a new volume: clamped, with the effective
    /// volume re-applied to a loaded session under the current mute flag.
    pub open spec fn spec_set_volume(self, volume: u16) -> Player {
        let v = clamp_volume(volume as int) as u16;
        Player {
            volume: v,
            playback: Playback {
                session: match self.playback.session {
                    Some(s) => Some(
                        Session { applied_volume: effective_volume(v, self.muted), ..s },
                    ),
                    None => None,
                },
            },
            ..self
        }
    }

    /// The state after flipping the mute flag: the stored volume is
    /// untouched, only the volume applied to a loaded session changes.
    pub open spec fn spec_set_muted(self, muted: bool) -> Player {
        Player {
            muted,
            playback: Playback {
                session: match self.playback.session {
                    Some(s) => Some(
                        Session { applied_volume: effective_volume(self.volume, muted), ..s },
                    ),
                    None => None,
                },
            },
            ..self
        }
    }

    /// Where the current index lands after the queue was reordered into
    /// `new_queue`: at the first entry with the current track's identity,
    /// or unchanged if the track is nowhere to be found.
    pub open spec fn spec_relocated(self, new_queue: Seq<Rc<QueueTrack>>) -> Option<usize> {
        match self.cur_track {
            Some(t) => match find_by_id(new_queue, t.spec_id()) {
                Some(j) => Some(j as usize),
                None => self.cur_track_index,
            },
            None => self.cur_track_index,
        }
    }

    /// What holds after a shuffle followed by replaying the first entry:
    /// the same entries in some order, the first one loaded.
    pub open spec fn spec_shuffled_replay(self, f: Player) -> bool {
        &&& f.queue@.to_multiset() == self.queue@.to_multiset()
        &&& f.queue@.len() == self.queue@.len()
        &&& f.playlists == self.playlists
        &&& f.volume == self.volume
        &&& f.muted == self.muted
        &&& f.loopstate == self.loopstate
        &&& f.cur_track_index == Some(0usize)
        &&& f.cur_track == Some(f.queue@[0])
        &&& f.playback.session == Some(Session {
            duration: f.queue@[0].spec_track().spec_try_duration(),
            pos: 0u64,
            paused: false,
            drained: false,
            applied_volume: effective_volume(self.volume, self.muted),
        })
        &&& f.elapsed == 0
    }

    /// The state after the tick observations were written into the session.
    pub open spec fn spec_observe(self, pos: u64, drained: bool) -> Player {
        Player {
            playback: Playback {
                session: match self.playback.session {
                    Some(s) => Some(Session { pos, drained, ..s }),
                    None => None,
                },
            },
            ..self
        }
    }

    /// Whether a tick must advance the queue: a current track whose session
    /// has drained, and whose index has not already triggered an advance.
    pub open spec fn spec_should_advance(self) -> bool {
        &&& self.cur_track is Some
        &&& self.spec_playstate() == PlayState::Ended
        &&& self.last_track_index != self.cur_track_index
    }
}

/// Sum of the durations of the first `upto` queue entries, saturating.
fn sum_queue_prefix(queue: &Vec<Rc<QueueTrack>>, upto: usize) -> (r: u64)
    requires
        upto <= queue@.len(),
    ensures
        r as int == elapsed_before(queue@, upto as int),
{
    let mut acc: u64 = 0;
    let mut k: usize = 0;
    while k < upto
        invariant
            upto <= queue@.len(),
            k <= upto,
            acc as int == elapsed_before(queue@, k as int),
        decreases upto - k,
    {
        let d = queue[k].duration();
        proof {
            let prefix = queue_durs(queue@.take(k as int));
            let next = queue_durs(queue@.take(k as int + 1));
            assert(next.drop_last() =~= prefix);
            assert(next.last() == d);
            lemma_sum_durs_nonneg(prefix);
        }
        acc = acc.saturating_add(d);
        k = k + 1;
    }
    acc
}

/// The index of the first queue entry with the given identity.
fn find_index_by_id(queue: &Vec<Rc<QueueTrack>>, id: Id) -> (r: Option<usize>)
    ensures
        r == match find_by_id(queue@, id) {
            Some(j) => Some(j as usize),
            None => None::<usize>,
        },
{
    let n = queue.len();
    proof {
        assert(queue@.subrange(0, n as int) =~= queue@);
    }
    let mut k: usize = 0;
    while k < n
        invariant
            n == queue@.len(),
            k <= n,
            find_by_id(queue@, id) == match find_by_id(queue@.subrange(k as int, n as int), id) {
                Some(j) => Some(j + k),
                None => None::<int>,
            },
        decreases n - k,
    {
        let ghost rest = queue@.subrange(k as int, n as int);
        if queue[k].id() == id {
            proof {
                assert(rest[0] == queue@[k as int]);
            }
            return Some(k);
        }
        proof {
            assert(rest[0] == queue@[k as int]);
            assert(rest.drop_first() =~= queue@.subrange(k as int + 1, n as int));
        }
        k = k + 1;
    }
    None
}

/// Whether two optional indices are the same.
fn opt_index_eq(a: &Option<usize>, b: &Option<usize>) -> (r: bool)
    ensures
        r == (*a == *b),
{
    match (a, b) {
        (Some(x), Some(y)) => *x == *y,
        (None, None) => true,
        _ => false,
    }
}

impl Player {
    /// Builds a player over the given playlists, with an aggregate playlist
    /// carrying `all_id`, named `"*"` and holding every track, put in front.
    pub fn new(playlists: Vec<Playlist>, all_id: Id) -> (r: Player)
        ensures
            r.wf(),
            r.playlists@.len() == playlists@.len() + 1,
            r.playlists@[0].id == all_id,
            r.playlists@[0].name@ == "*"@,
            r.playlists@[0].tracks@ == all_playlist_tracks(playlists@),
            r.playlists@.subrange(1, r.playlists@.len() as int) == playlists@,
            r.queue@.len() == 0,
            r.queue_dur == 0,
            r.elapsed == 0,
            r.last_track_index is None,
            r.cur_track_index is None,
            r.cur_track is None,
            r.playback.session is None,
            r.volume == 100,
            r.muted == false,
            r.loopstate == LoopState::Off,
    {
        let mut all_tracks: Vec<Rc<Track>> = Vec::new();
        let n = playlists.len();
        let mut i: usize = 0;
        while i < n
            invariant
                n == playlists@.len(),
                i <= n,
                all_tracks@ == all_playlist_tracks(playlists@.take(i as int)),
            decreases n - i,
        {
            let m = playlists[i].tracks.len();
            let mut j: usize = 0;
            while j < m
                invariant
                    n == playlists@.len(),
                    i < n,
                    m == playlists@[i as int].tracks@.len(),
                    j <= m,
                    all_tracks@ == all_playlist_tracks(playlists@.take(i as int))
                        + playlists@[i as int].tracks@.take(j as int),
                decreases m - j,
            {
                all_tracks.push(rc_dup(&playlists[i].tracks[j]));
                proof {
                    let ts = playlists@[i as int].tracks@;
                    assert(ts.take(j as int + 1) =~= ts.take(j as int).push(ts[j as int]));
                }
                j = j + 1;
            }
            proof {
                let upto = playlists@.take(i as int + 1);
                assert(upto.drop_last() =~= playlists@.take(i as int));
                assert(upto.last() == playlists@[i as int]);
                assert(playlists@[i as int].tracks@.take(m as int) =~= playlists@[i as int].tracks@);
            }
            i = i + 1;
        }
        proof {
            assert(playlists@.take(n as int) =~= playlists@);
        }
        let all = Playlist::new(all_id, String::from_str("*"), all_tracks);
        let mut playlists = playlists;
        let ghost given = playlists@;
        playlists.insert(0, all);
        proof {
            assert(playlists@.subrange(1, playlists@.len() as int) =~= given);
        }
        Player {
            playback: Playback { session: None },
            queue: Vec::new(),
            playlists,
            queue_dur: 0,
            elapsed: 0,
            last_track_index: None,
            cur_track_index: None,
            cur_track: None,
            volume: 100,
            muted: false,
            loopstate: LoopState::Off,
        }
    }

    /// Recomputes the total queue duration.
    fn calculate_queue_dur(&mut self)
        ensures
            *final(self) == (Player {
                queue_dur: sat64(sum_durs(queue_durs(old(self).queue@))) as u64,
                ..*old(self)
            }),
    {
        let len = self.queue.len();
        proof {
            assert(self.queue@.take(len as int) =~= self.queue@);
        }
        self.queue_dur = sum_queue_prefix(&self.queue, len);
    }

    /// Loads the queue entry at `track_index` into a fresh session, applies
    /// the effective volume, and makes the entry current.
    pub fn play(&mut self, track_index: usize) -> (r: PlaybackResult)
        requires
            old(self).wf(),
        ensures
            final(self).wf(),
            track_index < old(self).queue@.len() ==> r == Ok::<(), PlaybackError>(()) && *final(self) == old(self).spec_play(track_index),
            track_index >= old(self).queue@.len() ==> r == Err::<(), PlaybackError>(
                PlaybackError::NoTrack,
            ) && *final(self) == *old(self),
    {
        if track_index >= self.queue.len() {
            return Err(PlaybackError::NoTrack);
        }

        let duration = self.queue[track_index].track().try_duration();
        let vol = if self.muted {
            0
        } else {
            self.volume
        };
        self.playback.load(duration, vol);

        if let Some(cur_index) = self.cur_track_index {
            let clear_guard = match self.last_track_index {
                Some(l) => l == track_index,
                None => false,
            };
            if clear_guard {
                self.last_track_index = None;
            } else {
                self.last_track_index = Some(cur_index);
            }
        }

        self.cur_track_index = Some(track_index);
        self.cur_track = Some(rc_dup(&self.queue[track_index]));

        self.calculate_elapsed();
        Ok(())
    }

    /// Replaces the queue with the given playlist and plays `track_index`
    /// of it.
    pub fn play_playlist(&mut self, playlist_index: usize, track_index: usize) -> (r:
        PlaybackResult)
        requires
            old(self).wf(),
        ensures
            final(self).wf(),
            old(self).play_playlist_post(playlist_index, track_index, *final(self), r),
    {
        self.queue_set_playlist(playlist_index)?;
        self.play(track_index)
    }

    /// Plays the first entry of the queue.
    pub fn replay(&mut self) -> (r: PlaybackResult)
        requires
            old(self).wf(),
        ensures
            final(self).wf(),
            old(self).queue@.len() > 0 ==> r == Ok::<(), PlaybackError>(()) && *final(self) == old(self).spec_play(0),
            old(self).queue@.len() == 0 ==> r == Err::<(), PlaybackError>(PlaybackError::NoTrack)
                && *final(self) == *old(self),
    {
        self.play(0)
    }

    /// Advances to the next entry; at the end of the queue the loop policy
    /// decides: fail with `NoMore`, replay from the start, or shuffle and
    /// replay from the start.
    pub fn play_next(&mut self) -> (r: PlaybackResult)
        requires
            old(self).wf(),
        ensures
            final(self).wf(),
            old(self).play_next_post(*final(self), r),
    {
        let index = match self.cur_track_index {
            Some(i) => i,
            None => {
                return Err(PlaybackError::NotPlaying);
            },
        };

        if self.current_is_last() {
            match self.loopstate {
                LoopState::Off => Err(PlaybackError::NoMore),
                LoopState::Queue => self.replay(),
                LoopState::Shuffle => {
                    self.queue_shuffle();
                    self.replay()
                },
            }
        } else {
            let n = self.queue.len();
            proof {
                assert(index as int + 1 < n as int + 1);
            }
            self.play(index + 1)
        }
    }

    /// Steps back to the previous entry; fails with `NoMore` at the first
    /// one. There is no loop-wrap going backwards.
    pub fn play_prev(&mut self) -> (r: PlaybackResult)
        requires
            old(self).wf(),
        ensures
            final(self).wf(),
            old(self).play_prev_post(*final(self), r),
    {
        let index = match self.cur_track_index {
            Some(i) => i,
            None => {
                return Err(PlaybackError::NotPlaying);
            },
        };
        if index == 0 {
            return Err(PlaybackError::NoMore);
        }
        self.play(index - 1)
    }

    /// Resumes paused playback; a drained track is restarted from the top
    /// instead, since a drained sink has nothing left to resume.
    pub fn resume(&mut self) -> (r: PlaybackResult)
        requires
            old(self).wf(),
        ensures
            final(self).wf(),
            if old(self).spec_playstate() == PlayState::Ended {
                match old(self).cur_track_index {
                    Some(i) => r == Ok::<(), PlaybackError>(()) && *final(self) == old(self).spec_play(i),
                    None => r == Ok::<(), PlaybackError>(()) && *final(self) == *old(self),
                }
            } else {
                match old(self).playback.session {
                    None => r == Err::<(), PlaybackError>(PlaybackError::NoAudio) && *final(self)
                        == *old(self),
                    Some(s) => r == Ok::<(), PlaybackError>(()) && *final(self) == (Player {
                        playback: Playback { session: Some(Session { paused: false, ..s }) },
                        ..*old(self)
                    }),
                }
            },
    {
        let ended = self.playstate() == PlayState::Ended;
        if ended {
            if let Some(cur_index) = self.cur_track_index {
                self.play(cur_index)?;
            }
        } else {
            self.playback.resume()?;
        }
        Ok(())
    }

    pub fn pause(&mut self) -> (r: PlaybackResult)
        requires
            old(self).wf(),
        ensures
            final(self).wf(),
            old(self).pause_post(*final(self), r),
    {
        self.playback.pause()?;
        Ok(())
    }

    /// Unloads the session and forgets the current track. Fails with
    /// `NoAudio` when no session was loaded, clearing the current track all
    /// the same.
    pub fn stop(&mut self) -> (r: PlaybackResult)
        requires
            old(self).wf(),
        ensures
            final(self).wf(),
            old(self).stop_post(*final(self), r),
    {
        self.cur_track = None;
        self.cur_track_index = None;
        self.elapsed = 0;
        self.playback.stop()
    }

    /// Pauses running playback; anything else is resumed (or restarted).
    pub fn toggle(&mut self) -> (r: PlaybackResult)
        requires
            old(self).wf(),
        ensures
            final(self).wf(),
            old(self).toggle_post(*final(self), r),
    {
        match self.playstate() {
            PlayState::Paused | PlayState::Ended | PlayState::Stopped => self.resume(),
            PlayState::Playing => self.pause(),
        }
    }

    /// Seeks to `pos` milliseconds, clamped to one second before the end
    /// when the track length is known. The position never ends up past that
    /// limit.
    pub fn seek(&mut self, pos: u64) -> (r: PlaybackResult)
        requires
            old(self).wf(),
        ensures
            final(self).wf(),
            old(self).seek_post(pos, *final(self), r),
            match (old(self).playback.session, final(self).playback.session) {
                (Some(s0), Some(s1)) => match s0.duration {
                    Some(d) => s1.pos + 1000 <= d || s1.pos == 0,
                    None => true,
                },
                _ => true,
            },
    {
        self.playback.seek(pos)
    }

    /// Seeks forward by `dur` milliseconds from the current position.
    pub fn seek_forward(&mut self, dur: u64) -> (r: PlaybackResult)
        requires
            old(self).wf(),
        ensures
            final(self).wf(),
            match old(self).playback.session {
                None => r == Err::<(), PlaybackError>(PlaybackError::NoAudio) && *final(self)
                    == *old(self),
                Some(s) => r == Ok::<(), PlaybackError>(()) && *final(self) == (Player {
                    playback: Playback {
                        session: Some(
                            Session {
                                pos: old(self).playback.spec_seek_target(
                                    s.pos.saturating_add(dur),
                                ),
                                ..s
                            },
                        ),
                    },
                    ..*old(self)
                }),
            },
            match (old(self).playback.session, final(self).playback.session) {
                (Some(s0), Some(s1)) => match s0.duration {
                    Some(d) => s1.pos + 1000 <= d || s1.pos == 0,
                    None => true,
                },
                _ => true,
            },
    {
        let from = self.pos();
        self.seek(from.saturating_add(dur))
    }

    /// Seeks backward by `dur` milliseconds, stopping at the beginning.
    pub fn seek_backward(&mut self, dur: u64) -> (r: PlaybackResult)
        requires
            old(self).wf(),
        ensures
            final(self).wf(),
            match old(self).playback.session {
                None => r == Err::<(), PlaybackError>(PlaybackError::NoAudio) && *final(self)
                    == *old(self),
                Some(s) => r == Ok::<(), PlaybackError>(()) && *final(self) == (Player {
                    playback: Playback {
                        session: Some(
                            Session {
                                pos: old(self).playback.spec_seek_target(
                                    s.pos.saturating_sub(dur),
                                ),
                                ..s
                            },
                        ),
                    },
                    ..*old(self)
                }),
            },
            match (old(self).playback.session, final(self).playback.session) {
                (Some(s0), Some(s1)) => match s0.duration {
                    Some(d) => s1.pos + 1000 <= d || s1.pos == 0,
                    None => true,
                },
                _ => true,
            },
    {
        let from = self.pos();
        self.seek(from.saturating_sub(dur))
    }

    /// Stores the clamped volume and re-applies the effective volume. The
    /// stored volume is updated even when no session is loaded.
    pub fn set_volume(&mut self, volume: u16) -> (r: PlaybackResult)
        requires
            old(self).wf(),
        ensures
            final(self).wf(),
            *final(self) == old(self).spec_set_volume(volume),
            final(self).volume == clamp_volume(volume as int),
            final(self).muted == old(self).muted,
            r == if old(self).playback.session is Some {
                Ok::<(), PlaybackError>(())
            } else {
                Err::<(), PlaybackError>(PlaybackError::NoAudio)
            },
    {
        self.volume = if volume > MAX_VOLUME {
            MAX_VOLUME
        } else {
            volume
        };
        if self.muted {
            self.playback.set_volume(0)
        } else {
            self.playback.set_volume(self.volume)
        }
    }

    /// Raises the stored volume by `value` percent, clamped at
    /// `MAX_VOLUME`.
    pub fn volume_up(&mut self, value: u16) -> (r: PlaybackResult)
        requires
            old(self).wf(),
        ensures
            final(self).wf(),
            *final(self) == old(self).spec_set_volume(old(self).volume.saturating_add(value)),
            final(self).volume == clamp_volume(old(self).volume + value),
            r == if old(self).playback.session is Some {
                Ok::<(), PlaybackError>(())
            } else {
                Err::<(), PlaybackError>(PlaybackError::NoAudio)
            },
    {
        let target = self.volume.saturating_add(value);
        self.set_volume(target)
    }

    /// Lowers the stored volume by `value` percent, stopping at zero.
    pub fn volume_down(&mut self, value: u16) -> (r: PlaybackResult)
        requires
            old(self).wf(),
        ensures
            final(self).wf(),
            *final(self) == old(self).spec_set_volume(old(self).volume.saturating_sub(value)),
            final(self).volume == if old(self).volume >= value {
                old(self).volume - value
            } else {
                0
            },
            r == if old(self).playback.session is Some {
                Ok::<(), PlaybackError>(())
            } else {
                Err::<(), PlaybackError>(PlaybackError::NoAudio)
            },
    {
        let target = self.volume.saturating_sub(value);
        self.set_volume(target)
    }

    /// Sets the mute flag and re-applies the effective volume; the stored
    /// volume is untouched.
    pub fn set_muted(&mut self, muted: bool) -> (r: PlaybackResult)
        requires
            old(self).wf(),
        ensures
            final(self).wf(),
            *final(self) == old(self).spec_set_muted(muted),
            final(self).volume == old(self).volume,
            final(self).muted == muted,
            r == if old(self).playback.session is Some {
                Ok::<(), PlaybackError>(())
            } else {
                Err::<(), PlaybackError>(PlaybackError::NoAudio)
            },
    {
        self.muted = muted;
        if self.muted {
            self.playback.set_volume(0)
        } else {
            self.playback.set_volume(self.volume)
        }
    }

    pub fn mute_toggle(&mut self) -> (r: PlaybackResult)
        requires
            old(self).wf(),
        ensures
            final(self).wf(),
            *final(self) == old(self).spec_set_muted(!old(self).muted),
            r == if old(self).playback.session is Some {
                Ok::<(), PlaybackError>(())
            } else {
                Err::<(), PlaybackError>(PlaybackError::NoAudio)
            },
    {
        let muted = self.muted;
        self.set_muted(!muted)
    }

    pub fn set_loop(&mut self, loopstate: LoopState)
        requires
            old(self).wf(),
        ensures
            final(self).wf(),
            *final(self) == (Player { loopstate, ..*old(self) }),
    {
        self.loopstate = loopstate;
    }

    pub fn cycle_loopstate(&mut self)
        requires
            old(self).wf(),
        ensures
            final(self).wf(),
            *final(self) == (Player {
                loopstate: old(self).loopstate.spec_cycle_next(),
                ..*old(self)
            }),
    {
        let next = self.loopstate.cycle_next();
        self.set_loop(next);
    }

    /// The playhead position in milliseconds; zero when nothing is loaded.
    pub fn pos(&self) -> (r: u64)
        ensures
            r == match self.playback.session {
                Some(s) => s.pos,
                None => 0u64,
            },
    {
        match self.playback.pos() {
            Some(p) => p,
            None => 0,
        }
    }

    /// The current track's length in milliseconds; zero when unknown or
    /// nothing is current.
    pub fn duration(&self) -> (r: u64)
        ensures
            r == match self.cur_track {
                Some(t) => t.spec_duration(),
                None => 0u64,
            },
    {
        match &self.cur_track {
            Some(t) => t.duration(),
            None => 0,
        }
    }

    pub fn volume(&self) -> (r: u16)
        ensures
            r == self.volume,
    {
        self.volume
    }

    pub fn muted(&self) -> (r: bool)
        ensures
            r == self.muted,
    {
        self.muted
    }

    pub fn playstate(&self) -> (r: PlayState)
        ensures
            r == self.spec_playstate(),
    {
        match &self.playback.session {
            None => PlayState::Stopped,
            Some(s) => if s.drained {
                PlayState::Ended
            } else if s.paused {
                PlayState::Paused
            } else {
                PlayState::Playing
            },
        }
    }

    pub fn loopstate(&self) -> (r: LoopState)
        ensures
            r == self.loopstate,
    {
        self.loopstate
    }

    /// Whether the track with the given identity is the current one.
    pub fn is_track_current(&self, track_id: &Id) -> (r: bool)
        ensures
            r == match self.cur_track {
                Some(t) => t.spec_id() == *track_id,
                None => false,
            },
    {
        match &self.cur_track {
            Some(t) => t.id() == *track_id,
            None => false,
        }
    }

    /// Whether the queue position `track_index` is the current one.
    pub fn is_track_index_current(&self, track_index: &usize) -> (r: bool)
        ensures
            r == (self.cur_track_index == Some(*track_index)),
    {
        match self.cur_track_index {
            Some(i) => i == *track_index,
            None => false,
        }
    }

    /// Whether the current entry was queued from the playlist at
    /// `playlist_index`.
    pub fn is_playlist_index_current(&self, playlist_index: &usize) -> (r: bool)
        ensures
            r == match self.cur_track {
                Some(t) => t.spec_playlist_index() == Some(*playlist_index),
                None => false,
            },
    {
        match &self.cur_track {
            Some(t) => match t.playlist_index() {
                Some(i) => i == *playlist_index,
                None => false,
            },
            None => false,
        }
    }

    /// Whether the current entry is the last one in the queue.
    pub fn current_is_last(&self) -> (r: bool)
        ensures
            r == match self.cur_track_index {
                Some(i) => i as int >= self.queue@.len() - 1,
                None => false,
            },
    {
        match self.cur_track_index {
            Some(i) => i >= self.queue.len().saturating_sub(1),
            None => false,
        }
    }

    /// The playlist at `index`, if any.
    pub fn playlist_get(&self, index: usize) -> (r: Option<&Playlist>)
        ensures
            match r {
                Some(p) => index < self.playlists@.len() && *p == self.playlists@[index as int],
                None => index >= self.playlists@.len(),
            },
    {
        if index < self.playlists.len() {
            Some(&self.playlists[index])
        } else {
            None
        }
    }

    /// Recomputes the summed length of the entries before the current one.
    fn calculate_elapsed(&mut self)
        requires
            match old(self).cur_track_index {
                Some(i) => i <= old(self).queue@.len(),
                None => true,
            },
        ensures
            *final(self) == (Player {
                elapsed: match old(self).cur_track_index {
                    Some(i) => elapsed_before(old(self).queue@, i as int) as u64,
                    None => 0u64,
                },
                ..*old(self)
            }),
    {
        match self.cur_track_index {
            Some(i) => {
                self.elapsed = sum_queue_prefix(&self.queue, i);
            },
            None => {
                self.elapsed = 0;
            },
        }
    }

    /// Adopts a track length the outside decoder reported, where none was
    /// known: the stream-reported length is only a fallback.
    pub fn report_stream_duration(&mut self, duration: u64)
        requires
            old(self).wf(),
        ensures
            final(self).wf(),
            *final(self) == (Player {
                playback: Playback {
                    session: match old(self).playback.session {
                        Some(s) => Some(
                            Session {
                                duration: if s.duration is None {
                                    Some(duration)
                                } else {
                                    s.duration
                                },
                                ..s
                            },
                        ),
                        None => None,
                    },
                },
                ..*old(self)
            }),
    {
        if let Some(s) = &mut self.playback.session {
            if s.duration.is_none() {
                s.duration = Some(duration);
            }
        }
    }

    /// Records that the outside driver could not open or decode what it
    /// was asked to load: the session counts as drained at once, so the
    /// state reads as ended — the track can be restarted, skipped, or
    /// advanced past by the next tick — while the driver reports the
    /// device error to the user.
    pub fn load_failed(&mut self)
        requires
            old(self).wf(),
        ensures
            final(self).wf(),
            *final(self) == (Player {
                playback: Playback {
                    session: match old(self).playback.session {
                        Some(s) => Some(Session { drained: true, ..s }),
                        None => None,
                    },
                },
                ..*old(self)
            }),
    {
        if let Some(s) = &mut self.playback.session {
            s.drained = true;
        }
    }

    /// One 500 ms tick: records the observed playhead position and whether
    /// the sink drained, then advances the queue once per drained track.
    /// `NoMore` at the end of the queue is not an error here.
    pub fn handle_tick(&mut self, pos: u64, drained: bool)
        requires
            old(self).wf(),
        ensures
            final(self).wf(),
            ({
                let p1 = old(self).spec_observe(pos, drained);
                &&& !p1.spec_should_advance() ==> *final(self) == p1
                &&& p1.spec_should_advance() ==> ({
                    let p2 = Player { last_track_index: p1.cur_track_index, ..p1 };
                    match p1.cur_track_index {
                        Some(i) => if (i as int) + 1 < p1.queue@.len() {
                            *final(self) == p2.spec_play((i + 1) as usize)
                        } else {
                            match p1.loopstate {
                                LoopState::Off => *final(self) == p2,
                                LoopState::Queue => *final(self) == p2.spec_play(0),
                                LoopState::Shuffle => p2.spec_shuffled_replay(*final(self)),
                            }
                        },
                        None => false,
                    }
                })
            }),
    {
        if let Some(s) = &mut self.playback.session {
            s.pos = pos;
            s.drained = drained;
        }

        if self.cur_track.is_some() {
            let ended = self.playstate() == PlayState::Ended;
            let same = opt_index_eq(&self.last_track_index, &self.cur_track_index);
            if ended && !same {
                self.last_track_index = self.cur_track_index;
                let _ = self.play_next();
            }
        }
    }

    /// Appends one entry to the queue.
    pub fn queue_add(&mut self, track: Rc<QueueTrack>)
        requires
            old(self).wf(),
        ensures
            final(self).wf(),
            *final(self) == (Player {
                queue: final(self).queue,
                queue_dur: final(self).queue_dur,
                ..*old(self)
            }),
            final(self).queue@ == old(self).queue@.push(track),
    {
        self.queue.push(track);
        self.calculate_queue_dur();
        proof {
            assert(self.queue@.take(old(self).queue@.len() as int) =~= old(self).queue@);
            self.lemma_elapsed_prefix_stable(*old(self));
        }
    }

    /// Appends several entries to the queue.
    pub fn queue_add_tracks(&mut self, tracks: Vec<Rc<QueueTrack>>)
        requires
            old(self).wf(),
        ensures
            final(self).wf(),
            *final(self) == (Player {
                queue: final(self).queue,
                queue_dur: final(self).queue_dur,
                ..*old(self)
            }),
            final(self).queue@ == old(self).queue@ + tracks@,
    {
        let mut tracks = tracks;
        self.queue.append(&mut tracks);
        self.calculate_queue_dur();
        proof {
            assert(self.queue@.take(old(self).queue@.len() as int) =~= old(self).queue@);
            self.lemma_elapsed_prefix_stable(*old(self));
        }
    }

    /// The queue prefix before the current index is untouched by appending,
    /// so the cached elapsed time stays right.
    proof fn lemma_elapsed_prefix_stable(self, prev: Player)
        requires
            prev.wf(),
            self.cur_track_index == prev.cur_track_index,
            self.elapsed == prev.elapsed,
            prev.queue@.len() <= self.queue@.len(),
            self.queue@.take(prev.queue@.len() as int) == prev.queue@,
        ensures
            match self.cur_track_index {
                Some(i) => self.elapsed as int == elapsed_before(self.queue@, i as int),
                None => true,
            },
    {
        match self.cur_track_index {
            Some(i) => {
                assert(self.queue@.take(i as int) =~= prev.queue@.take(i as int));
            },
            None => {},
        }
    }

    /// Appends every track of the playlist at `playlist_index`, each entry
    /// remembering its provenance.
    pub fn queue_add_playlist(&mut self, playlist_index: usize) -> (r: PlaybackResult)
        requires
            old(self).wf(),
        ensures
            final(self).wf(),
            playlist_index >= old(self).playlists@.len() ==> r == Err::<(), PlaybackError>(
                PlaybackError::NoPlaylist,
            ) && *final(self) == *old(self),
            playlist_index < old(self).playlists@.len() ==> ({
                let tracks = old(self).playlists@[playlist_index as int].tracks@;
                &&& r == Ok::<(), PlaybackError>(())
                &&& *final(self) == (Player {
                    queue: final(self).queue,
                    queue_dur: final(self).queue_dur,
                    ..*old(self)
                })
                &&& final(self).queue@.len() == old(self).queue@.len() + tracks.len()
                &&& final(self).queue@.take(old(self).queue@.len() as int) == old(self).queue@
                &&& forall|k: int|
                    0 <= k < tracks.len() ==> final(self).queue@[old(self).queue@.len() + k]
                        == QueueTrack::Playlist(tracks[k], playlist_index)
            }),
    {
        if playlist_index >= self.playlists.len() {
            return Err(PlaybackError::NoPlaylist);
        }

        let n = self.playlists[playlist_index].tracks.len();
        let mut entries: Vec<Rc<QueueTrack>> = Vec::new();
        let mut k: usize = 0;
        while k < n
            invariant
                playlist_index < self.playlists@.len(),
                n == self.playlists@[playlist_index as int].tracks@.len(),
                k <= n,
                entries@.len() == k,
                forall|j: int|
                    0 <= j < k ==> entries@[j] == QueueTrack::Playlist(
                        self.playlists@[playlist_index as int].tracks@[j],
                        playlist_index,
                    ),
            decreases n - k,
        {
            let t = rc_dup(&self.playlists[playlist_index].tracks[k]);
            entries.push(Rc::new(QueueTrack::Playlist(t, playlist_index)));
            k = k + 1;
        }

        self.queue_add_tracks(entries);
        Ok(())
    }

    /// Appends one track of one playlist, remembering its provenance.
    pub fn queue_add_from_playlist(&mut self, playlist_index: usize, track_index: usize) -> (r:
        PlaybackResult)
        requires
            old(self).wf(),
        ensures
            final(self).wf(),
            playlist_index >= old(self).playlists@.len() ==> r == Err::<(), PlaybackError>(
                PlaybackError::NoPlaylist,
            ) && *final(self) == *old(self),
            playlist_index < old(self).playlists@.len() && track_index >= old(self).playlists@[
                playlist_index as int
            ].tracks@.len() ==> r == Err::<(), PlaybackError>(PlaybackError::NoTrack) && *final(self) == *old(self),
            playlist_index < old(self).playlists@.len() && track_index < old(self).playlists@[
                playlist_index as int
            ].tracks@.len() ==> r == Ok::<(), PlaybackError>(()) && *final(self) == (Player {
                queue: final(self).queue,
                queue_dur: final(self).queue_dur,
                ..*old(self)
            }) && final(self).queue@ == old(self).queue@.push(
                Rc::new(
                    QueueTrack::Playlist(
                        old(self).playlists@[playlist_index as int].tracks@[track_index as int],
                        playlist_index,
                    ),
                ),
            ),
    {
        if playlist_index >= self.playlists.len() {
            return Err(PlaybackError::NoPlaylist);
        }
        if track_index >= self.playlists[playlist_index].tracks.len() {
            return Err(PlaybackError::NoTrack);
        }
        let t = rc_dup(&self.playlists[playlist_index].tracks[track_index]);
        self.queue_add(Rc::new(QueueTrack::Playlist(t, playlist_index)));
        Ok(())
    }

    /// Replaces the queue outright and stops playback.
    pub fn queue_set(&mut self, tracks: Vec<Rc<QueueTrack>>) -> (r: PlaybackResult)
        requires
            old(self).wf(),
        ensures
            final(self).wf(),
            *final(self) == (Player {
                queue: final(self).queue,
                queue_dur: final(self).queue_dur,
                cur_track_index: None,
                cur_track: None,
                elapsed: 0u64,
                playback: Playback { session: None },
                ..*old(self)
            }),
            final(self).queue@ == tracks@,
            r == if old(self).playback.session is Some {
                Ok::<(), PlaybackError>(())
            } else {
                Err::<(), PlaybackError>(PlaybackError::NoAudio)
            },
    {
        self.queue = tracks;
        self.calculate_queue_dur();
        self.cur_track = None;
        self.cur_track_index = None;
        self.elapsed = 0;
        self.playback.stop()
    }

    /// Empties the queue and refills it from the playlist at
    /// `playlist_index`; the session keeps playing what it has until
    /// something new is played, but no track is current any more.
    pub fn queue_set_playlist(&mut self, playlist_index: usize) -> (r: PlaybackResult)
        requires
            old(self).wf(),
        ensures
            final(self).wf(),
            final(self).cur_track_index is None,
            final(self).cur_track is None,
            final(self).elapsed == 0,
            final(self).playback == old(self).playback,
            final(self).playlists == old(self).playlists,
            final(self).volume == old(self).volume,
            final(self).muted == old(self).muted,
            final(self).loopstate == old(self).loopstate,
            final(self).last_track_index == old(self).last_track_index,
            playlist_index >= old(self).playlists@.len() ==> r == Err::<(), PlaybackError>(
                PlaybackError::NoPlaylist,
            ) && final(self).queue@.len() == 0,
            playlist_index < old(self).playlists@.len() ==> ({
                let tracks = old(self).playlists@[playlist_index as int].tracks@;
                &&& r == Ok::<(), PlaybackError>(())
                &&& final(self).queue@.len() == tracks.len()
                &&& forall|k: int|
                    0 <= k < tracks.len() ==> final(self).queue@[k] == QueueTrack::Playlist(
                        tracks[k],
                        playlist_index,
                    )
            }),
    {
        self.queue.clear();
        self.queue_dur = 0;
        self.cur_track = None;
        self.cur_track_index = None;
        self.elapsed = 0;
        proof {
            assert(queue_durs(self.queue@) =~= Seq::<u64>::empty());
        }
        self.queue_add_playlist(playlist_index)
    }

    /// Empties the queue and stops playback.
    pub fn queue_clear(&mut self) -> (r: PlaybackResult)
        requires
            old(self).wf(),
        ensures
            final(self).wf(),
            old(self).queue_clear_post(*final(self), r),
    {
        self.queue.clear();
        proof {
            assert(queue_durs(self.queue@) =~= Seq::<u64>::empty());
        }
        self.queue_dur = 0;
        self.cur_track = None;
        self.cur_track_index = None;
        self.elapsed = 0;
        self.playback.stop()
    }

    /// Puts the queue in a random order. The entries are preserved as a
    /// multiset, and the current track keeps playing: its identity is
    /// looked up in the new order and the current index moved there.
    pub fn queue_shuffle(&mut self)
        requires
            old(self).wf(),
        ensures
            final(self).wf(),
            old(self).queue_shuffle_post(*final(self)),
    {
        proof {
            broadcast use vstd::seq_lib::group_to_multiset_ensures;

        }
        self.queue.shuffle();
        proof {
            vstd::seq_lib::to_multiset_len(self.queue@);
            vstd::seq_lib::to_multiset_len(old(self).queue@);
        }

        let cur_id = match &self.cur_track {
            Some(t) => Some(t.id()),
            None => None,
        };
        if let Some(id) = cur_id {
            proof {
                if Player::queue_has_id(old(self).queue@, id) {
                    lemma_id_survives_permutation(old(self).queue@, self.queue@, id);
                    lemma_find_by_id_finds(self.queue@, id);
                }
            }
            let queue_len = self.queue.len();
            if let Some(new_index) = find_index_by_id(&self.queue, id) {
                self.cur_track_index = Some(new_index);
                proof {
                    lemma_find_by_id_in_range(self.queue@, id);
                    assert(queue_len == self.queue@.len());
                    assert(self.queue@[new_index as int].spec_id() == id);
                }
            }
        }
        self.calculate_queue_dur();
        self.calculate_elapsed();
    }

    /// Takes the entry at `index` out of the queue. Removing the current
    /// entry plays whatever shifts into its place, or stops playback when
    /// nothing does; removing another entry keeps the current index on the
    /// same entry.
    pub fn queue_remove(&mut self, index: usize) -> (r: PlaybackResult)
        requires
            old(self).wf(),
        ensures
            final(self).wf(),
            old(self).queue@.len() == 0 ==> r == Err::<(), PlaybackError>(
                PlaybackError::EmptyQueue,
            ) && *final(self) == *old(self),
            old(self).queue@.len() > 0 && index >= old(self).queue@.len() ==> r == Err::<
                (),
                PlaybackError,
            >(PlaybackError::NoTrack) && *final(self) == *old(self),
            index < old(self).queue@.len() ==> ({
                let q2 = old(self).queue@.remove(index as int);
                let shrunk = Player {
                    queue: final(self).queue,
                    queue_dur: final(self).queue_dur,
                    elapsed: final(self).elapsed,
                    ..*old(self)
                };
                &&& final(self).queue@ == q2
                &&& final(self).queue_dur as int == sat64(sum_durs(queue_durs(q2)))
                &&& if old(self).cur_track_index == Some(index) {
                    if q2.len() == 0 || index as int == q2.len() {
                        r == Ok::<(), PlaybackError>(()) && *final(self) == (Player {
                            cur_track_index: None,
                            cur_track: None,
                            elapsed: 0u64,
                            playback: Playback { session: None },
                            ..shrunk
                        })
                    } else {
                        r == Ok::<(), PlaybackError>(()) && *final(self) == (Player {
                            queue: final(self).queue,
                            queue_dur: final(self).queue_dur,
                            ..*old(self)
                        }).spec_play(index) && final(self).cur_track == Some(
                            old(self).queue@[index as int + 1],
                        )
                    }
                } else {
                    r == Ok::<(), PlaybackError>(()) && *final(self) == (Player {
                        cur_track_index: match old(self).cur_track_index {
                            Some(c) => if c > index {
                                Some((c - 1) as usize)
                            } else {
                                Some(c)
                            },
                            None => None,
                        },
                        elapsed: final(self).elapsed,
                        ..shrunk
                    })
                }
            }),
    {
        if self.queue.is_empty() {
            return Err(PlaybackError::EmptyQueue);
        }
        if index >= self.queue.len() {
            return Err(PlaybackError::NoTrack);
        }

        let is_current = match self.cur_track_index {
            Some(i) => i == index,
            None => false,
        };

        if is_current {
            let _ = self.queue.remove(index);
            self.calculate_queue_dur();
            proof {
                assert(self.queue@.take(index as int) =~= old(self).queue@.take(index as int));
            }
            if index < self.queue.len() {
                let res = self.play(index);
                proof {
                    assert(res is Ok);
                }
                res
            } else {
                // Nothing shifted into the removed slot: stop playing.
                self.cur_track = None;
                self.cur_track_index = None;
                self.elapsed = 0;
                let _ = self.playback.stop();
                Ok(())
            }
        } else {
            let _ = self.queue.remove(index);
            self.calculate_queue_dur();
            match self.cur_track_index {
                Some(cur_index) => {
                    if cur_index > index {
                        self.cur_track_index = Some(cur_index - 1);
                    }
                },
                None => {},
            }
            self.calculate_elapsed();
            Ok(())
        }
    }

    /// Moves the entry at `track_index` to `to_index` (clamped into the
    /// queue). When the move lands on the current index, the current index
    /// follows the identity of what was moved.
    pub fn queue_move_to(&mut self, track_index: usize, to_index: usize) -> (r: PlaybackResult)
        requires
            old(self).wf(),
        ensures
            final(self).wf(),
            track_index >= old(self).queue@.len() ==> r == Err::<(), PlaybackError>(
                PlaybackError::NoTrack,
            ) && *final(self) == *old(self),
            track_index < old(self).queue@.len() ==> ({
                let len = old(self).queue@.len();
                let to = if (to_index as int) < len - 1 {
                    to_index as int
                } else {
                    len - 1
                };
                &&& r == Ok::<(), PlaybackError>(())
                &&& final(self).queue@ == old(self).queue@.remove(track_index as int).insert(
                    to,
                    old(self).queue@[track_index as int],
                )
                &&& final(self).cur_track_index == (if old(self).cur_track_index == Some(
                    to as usize,
                ) {
                    Some(track_index)
                } else if old(self).cur_track_index == Some(track_index) {
                    Some(to as usize)
                } else {
                    old(self).cur_track_index
                })
                &&& *final(self) == (Player {
                    queue: final(self).queue,
                    cur_track_index: final(self).cur_track_index,
                    elapsed: final(self).elapsed,
                    ..*old(self)
                })
            }),
    {
        let queue_len = self.queue.len();
        if track_index >= queue_len {
            return Err(PlaybackError::NoTrack);
        }
        let to_index = if to_index < queue_len - 1 {
            to_index
        } else {
            queue_len - 1
        };

        proof {
            let q = self.queue@;
            let moved = q.remove(track_index as int).insert(to_index as int, q[track_index as int]);
            assert(queue_durs(q.remove(track_index as int)) =~= queue_durs(q).remove(
                track_index as int,
            ));
            assert(queue_durs(moved) =~= queue_durs(q.remove(track_index as int)).insert(
                to_index as int,
                entry_dur(q[track_index as int]),
            ));
            lemma_sum_durs_remove(queue_durs(q), track_index as int);
            lemma_sum_durs_insert(
                queue_durs(q.remove(track_index as int)),
                to_index as int,
                entry_dur(q[track_index as int]),
            );
        }
        self.queue.move_to(track_index, to_index);

        let cur_is_to = match self.cur_track_index {
            Some(i) => i == to_index,
            None => false,
        };
        let cur_is_from = match self.cur_track_index {
            Some(i) => i == track_index,
            None => false,
        };
        if cur_is_to {
            self.cur_track_index = Some(track_index);
        } else if cur_is_from {
            self.cur_track_index = Some(to_index);
        }

        self.calculate_elapsed();
        Ok(())
    }
}

/// Muting, then setting the volume, then unmuting restores the effective
/// output to the volume that was set: the stored volume is independent of
/// the mute flag, and muting never alters it.
pub proof fn lemma_mute_volume_independent(p: Player, x: u16)
    requires
        p.playback.session is Some,
    ensures
        ({
            let q = p.spec_set_muted(true).spec_set_volume(x).spec_set_muted(false);
            &&& q.volume == clamp_volume(x as int)
            &&& q.muted == false
            &&& match q.playback.session {
                Some(s) => s.applied_volume == clamp_volume(x as int),
                None => false,
            }
        }),
{
}

/// A found identity index lies inside the queue and carries the identity.
pub proof fn lemma_find_by_id_in_range(s: Seq<Rc<QueueTrack>>, id: Id)
    ensures
        match find_by_id(s, id) {
            Some(j) => 0 <= j < s.len() && s[j].spec_id() == id,
            None => true,
        },
    decreases s.len(),
{
    if s.len() > 0 && entry_id(s[0]) != id {
        lemma_find_by_id_in_range(s.drop_first(), id);
    }
}

/// Searching by identity succeeds whenever some entry carries it.
pub proof fn lemma_find_by_id_finds(s: Seq<Rc<QueueTrack>>, id: Id)
    requires
        Player::queue_has_id(s, id),
    ensures
        find_by_id(s, id) is Some,
    decreases s.len(),
{
    if entry_id(s[0]) != id {
        let j = choose|j: int| 0 <= j < s.len() && entry_id(s[j]) == id;
        assert(0 < j);
        assert(s.drop_first()[j - 1] == s[j]);
        lemma_find_by_id_finds(s.drop_first(), id);
    }
}

/// Reordering a queue cannot lose an identity: the same entries remain.
pub proof fn lemma_id_survives_permutation(
    before: Seq<Rc<QueueTrack>>,
    after: Seq<Rc<QueueTrack>>,
    id: Id,
)
    requires
        before.to_multiset() == after.to_multiset(),
        Player::queue_has_id(before, id),
    ensures
        Player::queue_has_id(after, id),
{
    let j = choose|j: int| 0 <= j < before.len() && entry_id(before[j]) == id;
    let e = before[j];
    vstd::seq_lib::to_multiset_contains(before, e);
    assert(before.contains(e));
    assert(before.to_multiset().count(e) > 0);
    vstd::seq_lib::to_multiset_contains(after, e);
    assert(after.contains(e));
    let k = choose|k: int| 0 <= k < after.len() && after[k] == e;
    assert(entry_id(after[k]) == id);
}

} // verus!
