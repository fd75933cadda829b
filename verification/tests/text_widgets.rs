use std::rc::Rc;

use voru::app::{Mode, Notif, State, View};
use voru::cache::Cache;
use voru::config::{ConfigFormat, ConfigLayout, ConfigStyle};
use voru::player::Player;
use voru::playlist::{playlist_track_paths, Playlist};
use voru::track::{display_name, Id, Track, TrackData};
use voru::traits::{MoveTo, Shuffle, ToReadable};
use voru::view::{PlayerView, PlaylistsView, QueueView};
use voru::widget::{ListEvent, ListState, PlayerStyle};
use voru::Action;

#[test]
fn readable_times() {
    assert_eq!(0u64.to_readable(), "0:00");
    assert_eq!(59_000u64.to_readable(), "0:59");
    assert_eq!(65_000u64.to_readable(), "1:05");
    assert_eq!(600_000u64.to_readable(), "10:00");
    assert_eq!(3_600_000u64.to_readable(), "1:00:00");
    assert_eq!(3_661_000u64.to_readable(), "1:01:01");
    assert_eq!(36_005_000u64.to_readable(), "10:00:05");
    // Sub-second parts are cut, not rounded.
    assert_eq!(1_999u64.to_readable(), "0:01");
}

#[test]
fn move_to_shifts_between() {
    let mut v = vec![0, 1, 2, 3];
    v.move_to(0, 2);
    assert_eq!(v, vec![1, 2, 0, 3]);
    v.move_to(3, 0);
    assert_eq!(v, vec![3, 1, 2, 0]);
}

#[test]
fn shuffle_keeps_elements() {
    let mut v: Vec<u32> = (0..50).collect();
    v.shuffle();
    assert_eq!(v.len(), 50);
    let mut sorted = v.clone();
    sorted.sort();
    let expect: Vec<u32> = (0..50).collect();
    assert_eq!(sorted, expect);
}

#[test]
fn shuffle_of_empty_vec() {
    let mut v: Vec<u32> = Vec::new();
    v.shuffle();
    assert!(v.is_empty());
}

#[test]
fn display_name_uses_parent_dir() {
    assert_eq!(
        display_name("/home/me/music/song.mp3"),
        Some("music/song.mp3".to_string())
    );
    assert_eq!(display_name("song.mp3"), Some("song.mp3".to_string()));
    assert_eq!(display_name("/song.mp3"), Some("song.mp3".to_string()));
    assert_eq!(display_name("a/b/"), Some("a/b".to_string()));
    assert_eq!(display_name("///"), None);
    assert_eq!(display_name(""), None);
}

#[test]
fn track_title_falls_back() {
    let mut t = Track {
        id: Id(0),
        path: "/m/x.mp3".to_string(),
        filename: Some("m/x.mp3".to_string()),
        data: Some(Rc::new(TrackData {
            title: Some("A Song".to_string()),
            album: Some("An Album".to_string()),
            artist: Some("Someone".to_string()),
            duration: 61_000,
        })),
    };
    assert_eq!(t.title(), "A Song");
    assert_eq!(t.try_album().unwrap().as_str(), "An Album");
    assert_eq!(t.try_artist().unwrap().as_str(), "Someone");
    assert_eq!(t.try_duration(), Some(61_000));
    assert_eq!(t.duration(), 61_000);
    t.data = None;
    assert_eq!(t.title(), "m/x.mp3");
    assert_eq!(t.duration(), 0);
    t.filename = None;
    assert_eq!(t.title(), "<no title>");
}

#[test]
fn cache_remembers_first_entry() {
    let mut c = Cache::new();
    let path = "/m/x.mp3".to_string();
    assert!(!c.has(&path));
    assert!(c.get(&path).is_none());
    let first = TrackData { title: Some("one".to_string()), album: None, artist: None, duration: 5 };
    let got = c.get_or_create(&path, first);
    assert_eq!(got.title.as_deref(), Some("one"));
    assert!(c.has(&path));
    let second = TrackData { title: Some("two".to_string()), album: None, artist: None, duration: 9 };
    let got = c.get_or_create(&path, second);
    assert_eq!(got.title.as_deref(), Some("one"));
    assert_eq!(c.tracks_data.len(), 1);
}

#[test]
fn track_from_path_reads_cache() {
    let mut c = Cache::new();
    let path = "/m/a/x.mp3".to_string();
    c.add(
        path.clone(),
        Rc::new(TrackData { title: Some("hit".to_string()), album: None, artist: None, duration: 7 }),
    );
    let t = Track::from_path(&c, Id(3), path.clone());
    assert_eq!(t.id, Id(3));
    assert_eq!(t.path, path);
    assert_eq!(t.filename, Some("a/x.mp3".to_string()));
    assert_eq!(t.title(), "hit");
    let miss = Track::from_path(&c, Id(4), "/elsewhere.mp3".to_string());
    assert!(miss.data.is_none());
}

#[test]
fn playlist_new_sums_durations() {
    let tracks = vec![
        Rc::new(Track {
            id: Id(0),
            path: "a".to_string(),
            filename: None,
            data: Some(Rc::new(TrackData { title: None, album: None, artist: None, duration: 10_000 })),
        }),
        Rc::new(Track { id: Id(1), path: "b".to_string(), filename: None, data: None }),
    ];
    let pl = Playlist::new(Id(5), "mix".to_string(), tracks);
    assert_eq!(pl.duration, 10_000);
    assert_eq!(pl.name, "mix");
    assert_eq!(pl.tracks.len(), 2);
}

#[test]
fn playlist_paths_skip_blank_lines() {
    let content = "a.mp3\n\n  b.mp3  \n\t\nc/d.mp3\n";
    let paths = playlist_track_paths(content);
    assert_eq!(
        paths,
        vec!["a.mp3".to_string(), "b.mp3".to_string(), "c/d.mp3".to_string()]
    );
    assert!(playlist_track_paths("").is_empty());
    assert!(playlist_track_paths("\n \n").is_empty());
}

#[test]
fn view_cycles_forward_and_back() {
    assert_eq!(View::Player.cycle_next(), View::Playlists);
    assert_eq!(View::Queue.cycle_next(), View::Player);
    assert_eq!(View::Playlists.cycle_prev(), View::Player);
    assert_eq!(View::default(), View::Playlists);
    let v = View::Tracks;
    assert_eq!(v.cycle_next().cycle_prev(), v);
}

#[test]
fn state_transitions() {
    let mut s = State { mode: Mode::Normal, view: View::default(), notif: None };
    s.enter_mode(Mode::Cmd);
    assert_eq!(s.mode, Mode::Cmd);
    s.next_view();
    assert_eq!(s.view, View::Tracks);
    s.prev_view();
    assert_eq!(s.view, View::Playlists);
    s.notify(Notif::Error("boom".to_string()));
    assert_eq!(s.notif.as_ref().unwrap().value().as_str(), "boom");
}

#[test]
fn action_or_prefers_left_unless_nope() {
    assert_eq!(Action::Nope.or(Action::Draw), Action::Draw);
    assert_eq!(Action::Quit.or(Action::Draw), Action::Quit);
    assert_eq!(Action::from(ListEvent::Nope), Action::Nope);
    assert_eq!(Action::from(ListEvent::Chosen(3)), Action::Draw);
}

#[test]
fn list_select_clamps_and_scrolls() {
    let mut ls = ListState::new();
    ls.count = 100;
    ls.height = 10;
    assert_eq!(ls.select(150), ListEvent::Selected(99));
    assert_eq!(ls.current(), 99);
    // Scrolled so the selection sits within the margins near the end.
    assert_eq!(ls.scroll(), 90);
    ls.select_first();
    assert_eq!(ls.current(), 0);
    assert_eq!(ls.scroll(), 0);
}

#[test]
fn list_select_next_prev() {
    let mut ls = ListState::new();
    ls.count = 5;
    ls.height = 10;
    ls.select_next(2);
    ls.select_next(2);
    assert_eq!(ls.current(), 4);
    ls.select_next(7);
    assert_eq!(ls.current(), 4);
    ls.select_prev(1);
    assert_eq!(ls.current(), 3);
    ls.select_prev(10);
    assert_eq!(ls.current(), 0);
    ls.select_last();
    assert_eq!(ls.current(), 4);
}

#[test]
fn list_scroll_height_and_set_scroll() {
    let mut ls = ListState::new();
    ls.count = 30;
    ls.height = 10;
    assert_eq!(ls.scroll_height(), 20);
    assert_eq!(ls.set_scroll(50), ListEvent::Scrolled(20));
    assert_eq!(ls.scroll(), 20);
    ls.scroll_up(5);
    assert_eq!(ls.scroll(), 15);
    ls.scroll_down(2);
    assert_eq!(ls.scroll(), 17);
}

#[test]
fn list_with_scrolloff_keeps_margin() {
    let ls = ListState::new().with_scrolloff(4);
    assert_eq!(ls.scroll_top(), 4);
}

#[test]
fn config_defaults() {
    let f = ConfigFormat::default();
    assert_eq!(f.progress, '-');
    assert!(f.progress_thumb.is_empty());
    let s = ConfigStyle::default();
    assert_eq!(s.player, PlayerStyle::Classic);
    let l = ConfigLayout::default();
    assert_eq!(l.max_width, 90);
    assert_eq!(l.max_height, 22);
    assert_eq!(l.padding_x, 2);
    assert_eq!(l.padding_y, 1);
    assert_eq!(l.player_max_width, 80);
}

#[test]
fn views_start_fresh() {
    let _pv = PlayerView::new();
    let plv = PlaylistsView::new();
    assert_eq!(plv.cur_playlist(), 0);
    assert_eq!(plv.cur_track(), 0);
    let qv = QueueView::new();
    assert_eq!(qv.cur_track(), 0);
}

#[test]
fn queue_view_moves_selection_with_entry() {
    let mut p = Player::new(Vec::new(), Id(0));
    let mut entries = Vec::new();
    for i in 0..3usize {
        entries.push(Rc::new(voru::player::QueueTrack::Single(Rc::new(Track {
            id: Id(i),
            path: format!("t{i}"),
            filename: None,
            data: None,
        }))));
    }
    p.queue_add_tracks(entries);
    let mut qv = QueueView::new();
    qv.list_state.count = 3;
    qv.list_state.height = 10;
    qv.move_down(&mut p, 2).unwrap();
    assert_eq!(p.queue[2].id(), Id(0));
    assert_eq!(qv.cur_track(), 2);
    qv.move_up(&mut p, 1).unwrap();
    assert_eq!(p.queue[1].id(), Id(0));
    assert_eq!(qv.cur_track(), 1);
}

#[test]
fn queue_view_focus_follows_player() {
    let mut p = Player::new(Vec::new(), Id(0));
    let mut entries = Vec::new();
    for i in 0..3usize {
        entries.push(Rc::new(voru::player::QueueTrack::Single(Rc::new(Track {
            id: Id(i),
            path: format!("t{i}"),
            filename: None,
            data: None,
        }))));
    }
    p.queue_add_tracks(entries);
    p.play(2).unwrap();
    let mut qv = QueueView::new();
    qv.list_state.count = 3;
    qv.list_state.height = 10;
    assert_eq!(qv.focus(&p), ListEvent::Selected(2));
    assert_eq!(qv.cur_track(), 2);
}

#[test]
fn playlists_view_plays_selection() {
    let tracks = vec![
        Rc::new(Track {
            id: Id(0),
            path: "a".to_string(),
            filename: None,
            data: None,
        }),
        Rc::new(Track {
            id: Id(1),
            path: "b".to_string(),
            filename: None,
            data: None,
        }),
    ];
    let pls = vec![Playlist::new(Id(1), "mix".to_string(), tracks)];
    let mut p = Player::new(pls, Id(9));
    let mut plv = PlaylistsView::new();
    plv.playlists_state.count = 2;
    plv.tracks_state.count = 2;
    plv.playlists_state.select(1);
    plv.tracks_state.select(1);
    plv.play_track(&mut p).unwrap();
    assert_eq!(p.cur_track_index, Some(1));
    assert_eq!(p.queue.len(), 2);
    plv.play_playlist(&mut p).unwrap();
    assert_eq!(p.cur_track_index, Some(0));
}
