use std::rc::Rc;

use voru::player::{PlayState, PlaybackError, Player, QueueTrack};
use voru::playlist::Playlist;
use voru::track::{Id, Track, TrackData};

fn track(id: usize, secs: u64) -> Rc<Track> {
    Rc::new(Track {
        id: Id(id),
        path: format!("/music/t{id}.mp3"),
        filename: Some(format!("t{id}.mp3")),
        data: Some(Rc::new(TrackData {
            title: None,
            album: None,
            artist: None,
            duration: secs * 1000,
        })),
    })
}

fn entry(id: usize, secs: u64) -> Rc<QueueTrack> {
    Rc::new(QueueTrack::Single(track(id, secs)))
}

fn player_with(durs: &[u64]) -> Player {
    let mut p = Player::new(Vec::new(), Id(1000));
    let mut entries = Vec::new();
    for (i, d) in durs.iter().enumerate() {
        entries.push(entry(i, *d));
    }
    p.queue_add_tracks(entries);
    p
}

fn queue_ids(p: &Player) -> Vec<usize> {
    p.queue.iter().map(|t| t.id().0).collect()
}

// Queue [A(100s), B(200s), C(150s)], current B; remove(1): queue [A, C],
// current index 1 (C loaded), elapsed 100 s.
#[test]
fn remove_current_shifts_next_in() {
    let mut p = player_with(&[100, 200, 150]);
    p.play(1).unwrap();
    p.queue_remove(1).unwrap();
    assert_eq!(queue_ids(&p), vec![0, 2]);
    assert_eq!(p.cur_track_index, Some(1));
    assert_eq!(p.cur_track.as_ref().unwrap().id(), Id(2));
    assert_eq!(p.elapsed, 100_000);
    assert_eq!(p.queue_dur, 250_000);
    assert_eq!(p.playstate(), PlayState::Playing);
}

// remove on an empty queue fails with EmptyQueue and changes nothing.
#[test]
fn remove_on_empty_queue() {
    let mut p = Player::new(Vec::new(), Id(0));
    assert_eq!(p.queue_remove(0), Err(PlaybackError::EmptyQueue));
    assert_eq!(p.queue.len(), 0);
    assert_eq!(p.playstate(), PlayState::Stopped);
}

#[test]
fn remove_out_of_range_is_no_track() {
    let mut p = player_with(&[100]);
    assert_eq!(p.queue_remove(5), Err(PlaybackError::NoTrack));
    assert_eq!(p.queue.len(), 1);
}

#[test]
fn remove_before_current_keeps_identity() {
    let mut p = player_with(&[100, 200, 150]);
    p.play(2).unwrap();
    p.queue_remove(0).unwrap();
    assert_eq!(queue_ids(&p), vec![1, 2]);
    assert_eq!(p.cur_track_index, Some(1));
    assert_eq!(p.cur_track.as_ref().unwrap().id(), Id(2));
    assert_eq!(p.elapsed, 200_000);
}

#[test]
fn remove_after_current_keeps_index() {
    let mut p = player_with(&[100, 200, 150]);
    p.play(0).unwrap();
    p.queue_remove(2).unwrap();
    assert_eq!(queue_ids(&p), vec![0, 1]);
    assert_eq!(p.cur_track_index, Some(0));
}

#[test]
fn remove_last_remaining_current_stops() {
    let mut p = player_with(&[100]);
    p.play(0).unwrap();
    p.queue_remove(0).unwrap();
    assert_eq!(p.queue.len(), 0);
    assert_eq!(p.cur_track_index, None);
    assert_eq!(p.playstate(), PlayState::Stopped);
}

#[test]
fn remove_current_at_end_stops() {
    let mut p = player_with(&[100, 200]);
    p.play(1).unwrap();
    p.queue_remove(1).unwrap();
    assert_eq!(queue_ids(&p), vec![0]);
    assert_eq!(p.cur_track_index, None);
    assert_eq!(p.playstate(), PlayState::Stopped);
}

#[test]
fn move_to_reorders_and_tracks_identity() {
    let mut p = player_with(&[100, 200, 150]);
    p.play(0).unwrap();
    p.queue_move_to(0, 2).unwrap();
    assert_eq!(queue_ids(&p), vec![1, 2, 0]);
    assert_eq!(p.cur_track_index, Some(2));
    assert_eq!(p.elapsed, 350_000);
}

#[test]
fn move_to_clamps_destination() {
    let mut p = player_with(&[100, 200, 150]);
    p.queue_move_to(0, 99).unwrap();
    assert_eq!(queue_ids(&p), vec![1, 2, 0]);
}

#[test]
fn move_to_out_of_range_is_no_track() {
    let mut p = player_with(&[100]);
    assert_eq!(p.queue_move_to(3, 0), Err(PlaybackError::NoTrack));
}

#[test]
fn move_onto_current_swaps_current() {
    let mut p = player_with(&[100, 200, 150]);
    p.play(2).unwrap();
    p.queue_move_to(0, 2).unwrap();
    assert_eq!(queue_ids(&p), vec![1, 2, 0]);
    assert_eq!(p.cur_track_index, Some(0));
}

// shuffle keeps the same entries and keeps the same track current.
#[test]
fn shuffle_preserves_entries_and_current_identity() {
    let mut p = player_with(&[100, 200, 150, 50, 75]);
    p.play(2).unwrap();
    p.queue_shuffle();
    let mut ids = queue_ids(&p);
    ids.sort();
    assert_eq!(ids, vec![0, 1, 2, 3, 4]);
    assert_eq!(p.cur_track.as_ref().unwrap().id(), Id(2));
    let cur = p.cur_track_index.unwrap();
    assert_eq!(p.queue[cur].id(), Id(2));
    assert_eq!(p.queue_dur, 575_000);
}

#[test]
fn shuffle_of_empty_queue_is_fine() {
    let mut p = Player::new(Vec::new(), Id(0));
    p.queue_shuffle();
    assert_eq!(p.queue.len(), 0);
}

#[test]
fn queue_set_replaces_and_stops() {
    let mut p = player_with(&[100, 200]);
    p.play(0).unwrap();
    let fresh = vec![entry(9, 30)];
    p.queue_set(fresh).unwrap();
    assert_eq!(queue_ids(&p), vec![9]);
    assert_eq!(p.queue_dur, 30_000);
    assert_eq!(p.cur_track_index, None);
    assert_eq!(p.playstate(), PlayState::Stopped);
}

#[test]
fn queue_clear_empties_and_stops() {
    let mut p = player_with(&[100, 200]);
    p.play(0).unwrap();
    p.queue_clear().unwrap();
    assert_eq!(p.queue.len(), 0);
    assert_eq!(p.queue_dur, 0);
    assert_eq!(p.playstate(), PlayState::Stopped);
}

#[test]
fn queue_add_updates_duration() {
    let mut p = player_with(&[100]);
    p.queue_add(entry(5, 25));
    assert_eq!(queue_ids(&p), vec![0, 5]);
    assert_eq!(p.queue_dur, 125_000);
}

fn playlist(id: usize, ids_secs: &[(usize, u64)]) -> Playlist {
    let tracks: Vec<Rc<Track>> = ids_secs.iter().map(|(i, s)| track(*i, *s)).collect();
    Playlist::new(Id(id), format!("pl{id}"), tracks)
}

#[test]
fn new_player_builds_aggregate_playlist() {
    let pls = vec![playlist(1, &[(0, 10), (1, 20)]), playlist(2, &[(2, 30)])];
    let p = Player::new(pls, Id(99));
    assert_eq!(p.playlists.len(), 3);
    assert_eq!(p.playlists[0].name, "*");
    assert_eq!(p.playlists[0].id, Id(99));
    let agg_ids: Vec<usize> = p.playlists[0].tracks.iter().map(|t| t.id.0).collect();
    assert_eq!(agg_ids, vec![0, 1, 2]);
    assert_eq!(p.playlists[0].duration, 60_000);
    assert_eq!(p.playlists[1].name, "pl1");
}

#[test]
fn queue_add_playlist_remembers_provenance() {
    let pls = vec![playlist(1, &[(0, 10), (1, 20)])];
    let mut p = Player::new(pls, Id(99));
    p.queue_add_playlist(1).unwrap();
    assert_eq!(p.queue.len(), 2);
    assert_eq!(p.queue[0].playlist_index(), Some(1));
    p.play(0).unwrap();
    assert!(p.is_playlist_index_current(&1));
    assert!(!p.is_playlist_index_current(&0));
}

#[test]
fn queue_add_playlist_out_of_range() {
    let mut p = Player::new(Vec::new(), Id(0));
    assert_eq!(p.queue_add_playlist(5), Err(PlaybackError::NoPlaylist));
}

#[test]
fn queue_add_from_playlist_single_track() {
    let pls = vec![playlist(1, &[(0, 10), (1, 20)])];
    let mut p = Player::new(pls, Id(99));
    p.queue_add_from_playlist(1, 1).unwrap();
    assert_eq!(p.queue.len(), 1);
    assert_eq!(p.queue[0].id(), Id(1));
    assert_eq!(p.queue[0].playlist_index(), Some(1));
    assert_eq!(
        p.queue_add_from_playlist(1, 9),
        Err(PlaybackError::NoTrack)
    );
    assert_eq!(
        p.queue_add_from_playlist(9, 0),
        Err(PlaybackError::NoPlaylist)
    );
}

#[test]
fn play_playlist_fills_queue_and_plays() {
    let pls = vec![playlist(1, &[(0, 10), (1, 20)])];
    let mut p = Player::new(pls, Id(99));
    p.play_playlist(1, 1).unwrap();
    assert_eq!(p.queue.len(), 2);
    assert_eq!(p.cur_track_index, Some(1));
    assert_eq!(p.playstate(), PlayState::Playing);
}

#[test]
fn playlist_get_bounds() {
    let pls = vec![playlist(1, &[(0, 10)])];
    let p = Player::new(pls, Id(99));
    assert!(p.playlist_get(0).is_some());
    assert!(p.playlist_get(1).is_some());
    assert!(p.playlist_get(2).is_none());
}

#[test]
fn play_playlist_bad_playlist_empties_queue() {
    let pls = vec![playlist(1, &[(0, 10)])];
    let mut p = Player::new(pls, Id(99));
    p.queue_add_from_playlist(1, 0).unwrap();
    assert_eq!(p.queue.len(), 1);
    assert_eq!(p.play_playlist(9, 0), Err(PlaybackError::NoPlaylist));
    assert_eq!(p.queue.len(), 0);
    assert_eq!(p.cur_track_index, None);
    assert_eq!(p.queue_dur, 0);
}

#[test]
fn play_playlist_bad_track_refills_queue_without_current() {
    let pls = vec![playlist(1, &[(0, 10), (1, 20)])];
    let mut p = Player::new(pls, Id(99));
    assert_eq!(p.play_playlist(1, 5), Err(PlaybackError::NoTrack));
    assert_eq!(p.queue.len(), 2);
    assert_eq!(p.cur_track_index, None);
    assert_eq!(p.playstate(), PlayState::Stopped);
}

// The index-identity rule of move_to is not a permutation mapping: after
// moving an entry across the current index, the current index can point
// at a different entry, and removing that other entry can then take the
// current track out of the queue entirely while it keeps playing. This is
// the one state in which a later shuffle leaves the current index where
// it was: there is no entry with the current identity to move it to.
#[test]
fn index_identity_rule_can_strand_current_track() {
    let mut p = player_with(&[100, 200, 150]);
    p.play(1).unwrap();
    p.queue_move_to(0, 2).unwrap();
    // Queue is now [1, 2, 0] and the current index still says 1, which
    // holds entry 2; the playing track 1 sits at index 0.
    assert_eq!(queue_ids(&p), vec![1, 2, 0]);
    assert_eq!(p.cur_track_index, Some(1));
    assert_eq!(p.cur_track.as_ref().unwrap().id(), Id(1));
    p.queue_remove(0).unwrap();
    // The playing track is gone from the queue but keeps playing.
    assert_eq!(queue_ids(&p), vec![2, 0]);
    assert_eq!(p.cur_track.as_ref().unwrap().id(), Id(1));
    assert_eq!(p.cur_track_index, Some(0));
    assert_eq!(p.playstate(), PlayState::Playing);
    p.queue_shuffle();
    assert_eq!(p.cur_track.as_ref().unwrap().id(), Id(1));
    assert_eq!(p.cur_track_index, Some(0));
}
