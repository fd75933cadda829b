use std::rc::Rc;

use voru::player::{LoopState, PlayState, PlaybackError, Player, QueueTrack, RemoteLoopStatus,
    RemotePlayStatus, MAX_VOLUME};
use voru::track::{Id, Track, TrackData};

fn track(id: usize, secs: u64) -> Rc<Track> {
    Rc::new(Track {
        id: Id(id),
        path: format!("/music/t{id}.mp3"),
        filename: Some(format!("t{id}.mp3")),
        data: Some(Rc::new(TrackData {
            title: Some(format!("track {id}")),
            album: None,
            artist: None,
            duration: secs * 1000,
        })),
    })
}

fn entry(id: usize, secs: u64) -> Rc<QueueTrack> {
    Rc::new(QueueTrack::Single(track(id, secs)))
}

fn player_with(durs: &[u64]) -> Player {
    let mut p = Player::new(Vec::new(), Id(1000));
    let mut entries = Vec::new();
    for (i, d) in durs.iter().enumerate() {
        entries.push(entry(i, *d));
    }
    p.queue_add_tracks(entries);
    p
}

#[test]
fn new_player_is_stopped_and_silent() {
    let p = Player::new(Vec::new(), Id(0));
    assert_eq!(p.playstate(), PlayState::Stopped);
    assert_eq!(p.volume(), 100);
    assert!(!p.muted());
    assert_eq!(p.loopstate(), LoopState::Off);
    assert_eq!(p.queue.len(), 0);
    assert_eq!(p.queue_dur, 0);
    assert_eq!(p.pos(), 0);
    assert_eq!(p.duration(), 0);
}

#[test]
fn play_loads_track_and_elapsed() {
    let mut p = player_with(&[100, 200, 150]);
    assert_eq!(p.queue_dur, 450_000);
    assert!(p.play(1).is_ok());
    assert_eq!(p.cur_track_index, Some(1));
    assert_eq!(p.playstate(), PlayState::Playing);
    assert_eq!(p.elapsed, 100_000);
    assert_eq!(p.duration(), 200_000);
}

#[test]
fn play_out_of_range_is_no_track() {
    let mut p = player_with(&[100]);
    assert_eq!(p.play(1), Err(PlaybackError::NoTrack));
    assert_eq!(p.cur_track_index, None);
}

#[test]
fn pause_resume_toggle() {
    let mut p = player_with(&[100]);
    assert_eq!(p.pause(), Err(PlaybackError::NoAudio));
    p.play(0).unwrap();
    p.pause().unwrap();
    assert_eq!(p.playstate(), PlayState::Paused);
    p.resume().unwrap();
    assert_eq!(p.playstate(), PlayState::Playing);
    p.toggle().unwrap();
    assert_eq!(p.playstate(), PlayState::Paused);
    p.toggle().unwrap();
    assert_eq!(p.playstate(), PlayState::Playing);
}

#[test]
fn stop_clears_current() {
    let mut p = player_with(&[100]);
    p.play(0).unwrap();
    p.stop().unwrap();
    assert_eq!(p.playstate(), PlayState::Stopped);
    assert_eq!(p.cur_track_index, None);
    assert!(p.cur_track.is_none());
    assert_eq!(p.elapsed, 0);
}

#[test]
fn stop_without_session_errors_but_clears() {
    let mut p = player_with(&[100]);
    assert_eq!(p.stop(), Err(PlaybackError::NoAudio));
    assert_eq!(p.cur_track_index, None);
}

// Seeking never lands past one second before the end.
#[test]
fn seek_clamps_near_end() {
    let mut p = player_with(&[300]);
    p.play(0).unwrap();
    p.seek(299_000).unwrap();
    assert_eq!(p.pos(), 299_000);
    p.seek_forward(10_000).unwrap();
    assert_eq!(p.pos(), 299_000);
    p.seek(400_000).unwrap();
    assert_eq!(p.pos(), 299_000);
}

#[test]
fn seek_backward_saturates_at_zero() {
    let mut p = player_with(&[300]);
    p.play(0).unwrap();
    p.seek(5_000).unwrap();
    p.seek_backward(10_000).unwrap();
    assert_eq!(p.pos(), 0);
}

#[test]
fn seek_without_session_is_no_audio() {
    let mut p = player_with(&[300]);
    assert_eq!(p.seek(1000), Err(PlaybackError::NoAudio));
}

#[test]
fn volume_up_is_clamped_sum() {
    let mut p = player_with(&[100]);
    p.play(0).unwrap();
    p.set_volume(90).unwrap();
    p.volume_up(30).unwrap();
    assert_eq!(p.volume(), 120);
}

#[test]
fn volume_clamps_at_max() {
    let mut p = player_with(&[100]);
    p.play(0).unwrap();
    p.set_volume(500).unwrap();
    assert_eq!(p.volume(), MAX_VOLUME);
    p.volume_down(50).unwrap();
    assert_eq!(p.volume(), 150);
    p.volume_down(500).unwrap();
    assert_eq!(p.volume(), 0);
}

#[test]
fn volume_stored_even_without_session() {
    let mut p = player_with(&[100]);
    assert_eq!(p.set_volume(80), Err(PlaybackError::NoAudio));
    assert_eq!(p.volume(), 80);
}

// Muting, setting the volume, then unmuting restores the set volume.
#[test]
fn mute_is_independent_of_stored_volume() {
    let mut p = player_with(&[100]);
    p.play(0).unwrap();
    p.set_muted(true).unwrap();
    p.set_volume(120).unwrap();
    assert_eq!(p.playback.session.unwrap().applied_volume, 0);
    p.set_muted(false).unwrap();
    assert_eq!(p.volume(), 120);
    assert!(!p.muted());
    assert_eq!(p.playback.session.unwrap().applied_volume, 120);
}

#[test]
fn mute_toggle_flips() {
    let mut p = player_with(&[100]);
    p.play(0).unwrap();
    p.mute_toggle().unwrap();
    assert!(p.muted());
    assert_eq!(p.playback.session.unwrap().applied_volume, 0);
    p.mute_toggle().unwrap();
    assert!(!p.muted());
    assert_eq!(p.playback.session.unwrap().applied_volume, 100);
}

// play_next at the last index under LoopMode::None fails and changes nothing.
#[test]
fn play_next_at_end_without_loop() {
    let mut p = player_with(&[100, 200, 150]);
    p.play(2).unwrap();
    assert_eq!(p.play_next(), Err(PlaybackError::NoMore));
    assert_eq!(p.cur_track_index, Some(2));
    assert_eq!(p.playstate(), PlayState::Playing);
}

// play_next at the last index under queue repeat loads the first entry.
#[test]
fn play_next_at_end_with_queue_loop() {
    let mut p = player_with(&[100, 200, 150]);
    p.set_loop(LoopState::Queue);
    p.play(2).unwrap();
    p.play_next().unwrap();
    assert_eq!(p.cur_track_index, Some(0));
    assert_eq!(p.cur_track.as_ref().unwrap().id(), Id(0));
    assert_eq!(p.playstate(), PlayState::Playing);
}

#[test]
fn play_next_advances() {
    let mut p = player_with(&[100, 200, 150]);
    p.play(0).unwrap();
    p.play_next().unwrap();
    assert_eq!(p.cur_track_index, Some(1));
    assert_eq!(p.elapsed, 100_000);
}

#[test]
fn play_next_with_shuffle_loop_replays_start() {
    let mut p = player_with(&[100, 200, 150]);
    p.set_loop(LoopState::Shuffle);
    p.play(2).unwrap();
    p.play_next().unwrap();
    assert_eq!(p.cur_track_index, Some(0));
    assert_eq!(p.queue.len(), 3);
    assert_eq!(p.playstate(), PlayState::Playing);
}

#[test]
fn play_prev_steps_back_and_stops_at_zero() {
    let mut p = player_with(&[100, 200]);
    assert_eq!(p.play_prev(), Err(PlaybackError::NotPlaying));
    p.play(1).unwrap();
    p.play_prev().unwrap();
    assert_eq!(p.cur_track_index, Some(0));
    assert_eq!(p.play_prev(), Err(PlaybackError::NoMore));
    assert_eq!(p.cur_track_index, Some(0));
}

#[test]
fn resume_restarts_ended_track() {
    let mut p = player_with(&[100]);
    p.play(0).unwrap();
    // The sink drains; the tick records it and the auto-advance finds no
    // next track under LoopState::Off.
    p.handle_tick(100_000, true);
    assert_eq!(p.playstate(), PlayState::Ended);
    p.resume().unwrap();
    assert_eq!(p.playstate(), PlayState::Playing);
    assert_eq!(p.pos(), 0);
}

#[test]
fn tick_advances_once_per_track() {
    let mut p = player_with(&[100, 200]);
    p.play(0).unwrap();
    p.handle_tick(100_000, true);
    assert_eq!(p.cur_track_index, Some(1));
    assert_eq!(p.playstate(), PlayState::Playing);
    p.handle_tick(200_000, true);
    // Track 1 was the last: the advance fails silently and the guard is set.
    assert_eq!(p.cur_track_index, Some(1));
    p.handle_tick(200_000, true);
    assert_eq!(p.cur_track_index, Some(1));
}

#[test]
fn tick_updates_position() {
    let mut p = player_with(&[100]);
    p.play(0).unwrap();
    p.handle_tick(42_000, false);
    assert_eq!(p.pos(), 42_000);
    assert_eq!(p.playstate(), PlayState::Playing);
}

#[test]
fn tick_with_single_track_queue_loop_replays() {
    let mut p = player_with(&[100]);
    p.set_loop(LoopState::Queue);
    p.play(0).unwrap();
    p.handle_tick(100_000, true);
    assert_eq!(p.cur_track_index, Some(0));
    assert_eq!(p.playstate(), PlayState::Playing);
}

#[test]
fn report_stream_duration_only_fills_gap() {
    let mut p = Player::new(Vec::new(), Id(0));
    let mut entries = Vec::new();
    entries.push(Rc::new(QueueTrack::Single(Rc::new(Track {
        id: Id(7),
        path: "/music/unknown.mp3".to_string(),
        filename: None,
        data: None,
    }))));
    p.queue_add_tracks(entries);
    p.play(0).unwrap();
    assert_eq!(p.playback.session.unwrap().duration, None);
    p.report_stream_duration(90_000);
    assert_eq!(p.playback.session.unwrap().duration, Some(90_000));
    p.report_stream_duration(10_000);
    assert_eq!(p.playback.session.unwrap().duration, Some(90_000));
}

#[test]
fn cycle_loopstate_goes_round() {
    let mut p = Player::new(Vec::new(), Id(0));
    assert_eq!(p.loopstate(), LoopState::Off);
    p.cycle_loopstate();
    assert_eq!(p.loopstate(), LoopState::Queue);
    p.cycle_loopstate();
    assert_eq!(p.loopstate(), LoopState::Shuffle);
    p.cycle_loopstate();
    assert_eq!(p.loopstate(), LoopState::Off);
}

#[test]
fn loopstate_cycle_prev_is_inverse() {
    assert_eq!(LoopState::Off.cycle_prev(), LoopState::Shuffle);
    assert_eq!(LoopState::Queue.cycle_prev(), LoopState::Off);
    assert_eq!(LoopState::Shuffle.cycle_next().cycle_prev(), LoopState::Shuffle);
}

#[test]
fn playstate_text() {
    assert_eq!(PlayState::Playing.text(), "playing");
    assert_eq!(PlayState::Paused.text(), "paused");
    assert_eq!(PlayState::Stopped.text(), "stopped");
    assert_eq!(PlayState::Ended.text(), "ended");
    assert_eq!(LoopState::Off.text(), "none");
}

#[test]
fn current_track_queries() {
    let mut p = player_with(&[100, 200]);
    p.play(1).unwrap();
    assert!(p.is_track_index_current(&1));
    assert!(!p.is_track_index_current(&0));
    assert!(p.is_track_current(&Id(1)));
    assert!(!p.is_track_current(&Id(0)));
    assert!(p.current_is_last());
    assert!(!p.is_playlist_index_current(&0));
}

#[test]
fn load_failed_reads_as_ended_and_advances() {
    let mut p = player_with(&[100, 200]);
    p.play(0).unwrap();
    // The outside driver could not open the file: the session counts as
    // drained, so the state reads Ended and the next tick moves on.
    p.load_failed();
    assert_eq!(p.playstate(), PlayState::Ended);
    assert_eq!(p.cur_track_index, Some(0));
    p.handle_tick(0, true);
    assert_eq!(p.cur_track_index, Some(1));
}

#[test]
fn load_failed_without_session_changes_nothing() {
    let mut p = player_with(&[100]);
    p.load_failed();
    assert_eq!(p.playstate(), PlayState::Stopped);
}

#[test]
fn boundary_errors_are_classified() {
    assert!(PlaybackError::NoAudio.is_boundary());
    assert!(PlaybackError::NoTrack.is_boundary());
    assert!(PlaybackError::NoPlaylist.is_boundary());
    assert!(PlaybackError::NotPlaying.is_boundary());
    assert!(PlaybackError::NoMore.is_boundary());
    assert!(PlaybackError::EmptyQueue.is_boundary());
    assert!(!PlaybackError::Io.is_boundary());
    assert!(!PlaybackError::Play.is_boundary());
    assert!(!PlaybackError::Seek.is_boundary());
}

#[test]
fn remote_status_maps() {
    assert_eq!(PlayState::Playing.remote_status(), RemotePlayStatus::Playing);
    assert_eq!(PlayState::Paused.remote_status(), RemotePlayStatus::Paused);
    assert_eq!(PlayState::Stopped.remote_status(), RemotePlayStatus::Stopped);
    assert_eq!(PlayState::Ended.remote_status(), RemotePlayStatus::Stopped);
    assert_eq!(LoopState::Off.remote_status(), RemoteLoopStatus::Off);
    assert_eq!(LoopState::Queue.remote_status(), RemoteLoopStatus::Playlist);
    assert_eq!(LoopState::Shuffle.remote_status(), RemoteLoopStatus::Playlist);
}
