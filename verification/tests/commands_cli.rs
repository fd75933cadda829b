use std::rc::Rc;

use voru::app::{Mode, Notif, State, View};
use voru::cli::Cli;
use voru::cmdline::CmdLine;
use voru::commands::{exec_command, parse_percent, parse_secs, Cmd, CmdError, CmdKind,
    CmdOutcome, Commands, UpdateError};
use voru::player::{LoopState, PlayState, PlaybackError, Player, QueueTrack};
use voru::track::{Id, Track, TrackData};
use voru::Action;

fn state() -> State {
    State { mode: Mode::Normal, view: View::default(), notif: None }
}

fn player_with(durs: &[u64]) -> Player {
    let mut p = Player::new(Vec::new(), Id(1000));
    let mut entries = Vec::new();
    for (i, d) in durs.iter().enumerate() {
        entries.push(Rc::new(QueueTrack::Single(Rc::new(Track {
            id: Id(i),
            path: format!("/music/t{i}.mp3"),
            filename: None,
            data: Some(Rc::new(TrackData {
                title: None,
                album: None,
                artist: None,
                duration: d * 1000,
            })),
        }))));
    }
    p.queue_add_tracks(entries);
    p
}

#[test]
fn find_resolves_names_and_aliases() {
    let commands = Commands::new();
    let quit = commands.find("quit").unwrap();
    assert_eq!(*quit.kind(), CmdKind::Quit);
    assert!(!quit.is_alias());
    let q = commands.find("q").unwrap();
    assert_eq!(*q.kind(), CmdKind::Quit);
    assert!(q.is_alias());
    assert!(commands.find("frobnicate").is_none());
    assert_eq!(commands.list.len(), 40);
}

#[test]
fn formatted_list_shows_args_and_alias_targets() {
    let commands = Commands::new();
    let list = commands.formatted_list();
    assert_eq!(list.len(), 40);
    assert_eq!(list[0], (false, "quit".to_string(), "Say \"goodbye\" to VORU".to_string()));
    let echo = list.iter().find(|(_, n, _)| n.starts_with("echo")).unwrap();
    assert_eq!(echo.1, "echo <MSG>");
    let q = &list[1];
    assert!(q.0);
    assert_eq!(q.1, "q");
    assert_eq!(q.2, "(alias to :quit) Say \"goodbye\" to VORU");
}

#[test]
fn cmd_accessors() {
    let c = Cmd::Normal("stop", CmdKind::Stop);
    assert_eq!(c.name(), "stop");
    assert_eq!(*c.kind(), CmdKind::Stop);
    assert_eq!(CmdKind::Seek.args(), Some("<SECONDS>"));
    assert_eq!(CmdKind::Stop.args(), None);
    assert_eq!(CmdKind::QueueClear.description(), "Clear the queue");
}

#[test]
fn parse_secs_gives_millis() {
    assert_eq!(parse_secs(Some(&"10".to_string())), Ok(10_000));
    assert_eq!(parse_secs(Some(&"0".to_string())), Ok(0));
    assert_eq!(parse_secs(None), Err(CmdError::NotEnoughArgs));
    assert_eq!(
        parse_secs(Some(&"ten".to_string())),
        Err(CmdError::InvalidArg("ten".to_string()))
    );
    assert_eq!(
        parse_secs(Some(&"".to_string())),
        Err(CmdError::InvalidArg("".to_string()))
    );
    // A value past u64 is rejected like any unreadable number.
    assert_eq!(
        parse_secs(Some(&"18446744073709551616".to_string())),
        Err(CmdError::InvalidArg("18446744073709551616".to_string()))
    );
    // The largest readable value saturates when scaled to milliseconds.
    assert_eq!(
        parse_secs(Some(&"18446744073709551615".to_string())),
        Ok(u64::MAX)
    );
}

#[test]
fn parse_percent_strips_percent_signs() {
    assert_eq!(parse_percent(Some(&"120".to_string())), Ok(120));
    assert_eq!(parse_percent(Some(&"90%".to_string())), Ok(90));
    assert_eq!(parse_percent(None), Err(CmdError::NotEnoughArgs));
    assert_eq!(
        parse_percent(Some(&"12.5".to_string())),
        Err(CmdError::InvalidArg("12.5".to_string()))
    );
    assert_eq!(
        parse_percent(Some(&"99999".to_string())),
        Err(CmdError::InvalidArg("99999".to_string()))
    );
}

#[test]
fn exec_unknown_command() {
    let commands = Commands::new();
    let mut s = state();
    let mut p = player_with(&[100]);
    let r = exec_command(&commands, &mut s, &mut p, "frobnicate now");
    assert!(matches!(r, Err(UpdateError::Cmd(CmdError::NoSuchCmd))));
}

#[test]
fn exec_quit_and_hello() {
    let commands = Commands::new();
    let mut s = state();
    let mut p = player_with(&[100]);
    let r = exec_command(&commands, &mut s, &mut p, "q");
    assert!(matches!(r, Ok(CmdOutcome::Act(Action::Quit))));
    let r = exec_command(&commands, &mut s, &mut p, "hello");
    assert!(matches!(r, Ok(CmdOutcome::Act(Action::Draw))));
    assert_eq!(s.notif.as_ref().unwrap().value().as_str(), "hey");
}

#[test]
fn exec_echo_keeps_inner_spacing() {
    let commands = Commands::new();
    let mut s = state();
    let mut p = player_with(&[100]);
    exec_command(&commands, &mut s, &mut p, "  echo  hello   there ").unwrap();
    match s.notif {
        Some(Notif::Normal(ref v)) => assert_eq!(v, "hello   there"),
        _ => panic!("expected a plain notification"),
    }
}

#[test]
fn exec_volume_commands() {
    let commands = Commands::new();
    let mut s = state();
    let mut p = player_with(&[100]);
    p.play(0).unwrap();
    exec_command(&commands, &mut s, &mut p, "volume 90").unwrap();
    assert_eq!(p.volume(), 90);
    exec_command(&commands, &mut s, &mut p, "volup 30%").unwrap();
    assert_eq!(p.volume(), 120);
    exec_command(&commands, &mut s, &mut p, "volume-down 20").unwrap();
    assert_eq!(p.volume(), 100);
    exec_command(&commands, &mut s, &mut p, "volume 50").unwrap();
    exec_command(&commands, &mut s, &mut p, "volume-reset").unwrap();
    assert_eq!(p.volume(), 100);
    let r = exec_command(&commands, &mut s, &mut p, "volume x");
    assert!(matches!(r, Err(UpdateError::Cmd(CmdError::InvalidArg(_)))));
    let r = exec_command(&commands, &mut s, &mut p, "volume");
    assert!(matches!(r, Err(UpdateError::Cmd(CmdError::NotEnoughArgs))));
}

#[test]
fn exec_seek_commands() {
    let commands = Commands::new();
    let mut s = state();
    let mut p = player_with(&[300]);
    p.play(0).unwrap();
    exec_command(&commands, &mut s, &mut p, "seek 10").unwrap();
    assert_eq!(p.pos(), 10_000);
    exec_command(&commands, &mut s, &mut p, "seekf 5").unwrap();
    assert_eq!(p.pos(), 15_000);
    exec_command(&commands, &mut s, &mut p, "seek-back 7").unwrap();
    assert_eq!(p.pos(), 8_000);
    exec_command(&commands, &mut s, &mut p, "seek 2000").unwrap();
    assert_eq!(p.pos(), 299_000);
}

#[test]
fn exec_playback_and_loop_commands() {
    let commands = Commands::new();
    let mut s = state();
    let mut p = player_with(&[100, 200]);
    p.play(0).unwrap();
    exec_command(&commands, &mut s, &mut p, "pause").unwrap();
    assert_eq!(p.playstate(), PlayState::Paused);
    exec_command(&commands, &mut s, &mut p, "resume").unwrap();
    assert_eq!(p.playstate(), PlayState::Playing);
    exec_command(&commands, &mut s, &mut p, "next").unwrap();
    assert_eq!(p.cur_track_index, Some(1));
    exec_command(&commands, &mut s, &mut p, "prev").unwrap();
    assert_eq!(p.cur_track_index, Some(0));
    exec_command(&commands, &mut s, &mut p, "loop-queue").unwrap();
    assert_eq!(p.loopstate(), LoopState::Queue);
    exec_command(&commands, &mut s, &mut p, "loop-none").unwrap();
    assert_eq!(p.loopstate(), LoopState::Off);
    exec_command(&commands, &mut s, &mut p, "mute").unwrap();
    assert!(p.muted());
    exec_command(&commands, &mut s, &mut p, "unmute").unwrap();
    assert!(!p.muted());
    exec_command(&commands, &mut s, &mut p, "stop").unwrap();
    assert_eq!(p.playstate(), PlayState::Stopped);
    let r = exec_command(&commands, &mut s, &mut p, "next");
    assert!(matches!(
        r,
        Err(UpdateError::Playback(PlaybackError::NotPlaying))
    ));
}

#[test]
fn exec_queue_add_hands_paths_back() {
    let commands = Commands::new();
    let mut s = state();
    let mut p = player_with(&[100]);
    let r = exec_command(&commands, &mut s, &mut p, "add ~/a.mp3 ~/b.mp3");
    match r {
        Ok(CmdOutcome::AddTracks(paths)) => {
            assert_eq!(paths, vec!["~/a.mp3".to_string(), "~/b.mp3".to_string()]);
        },
        _ => panic!("expected a request to add tracks"),
    }
    let r = exec_command(&commands, &mut s, &mut p, "add");
    assert!(matches!(r, Err(UpdateError::Cmd(CmdError::NotEnoughArgs))));
}

#[test]
fn exec_queue_clear_and_shuffle() {
    let commands = Commands::new();
    let mut s = state();
    let mut p = player_with(&[100, 200]);
    p.play(0).unwrap();
    exec_command(&commands, &mut s, &mut p, "shuffle").unwrap();
    assert_eq!(p.queue.len(), 2);
    exec_command(&commands, &mut s, &mut p, "clear").unwrap();
    assert_eq!(p.queue.len(), 0);
    assert_eq!(p.playstate(), PlayState::Stopped);
}

#[test]
fn cli_parses_flags() {
    let args = vec!["-c".to_string(), "cfg.toml".to_string(), "-v".to_string()];
    let cli = Cli::parse(&args).unwrap();
    assert!(cli.print_version);
    assert!(!cli.print_help);
    assert_eq!(cli.config_path, Some("cfg.toml".to_string()));
}

#[test]
fn cli_help_stops_reading() {
    let args = vec!["--help".to_string(), "bogus".to_string()];
    let cli = Cli::parse(&args).unwrap();
    assert!(cli.print_help);
}

#[test]
fn cli_rejects_unknown() {
    let args = vec!["--frobnicate".to_string()];
    assert!(Cli::parse(&args).is_none());
}

#[test]
fn cli_echo_takes_next_argument() {
    let args = vec!["--echo".to_string(), "hi there".to_string()];
    let cli = Cli::parse(&args).unwrap();
    assert_eq!(cli.echo_msg, Some("hi there".to_string()));
}

#[test]
fn cli_config_without_value() {
    let args = vec!["--config".to_string()];
    let cli = Cli::parse(&args).unwrap();
    assert_eq!(cli.config_path, None);
}

#[test]
fn cli_empty_args_is_default() {
    let args: Vec<String> = Vec::new();
    let cli = Cli::parse(&args).unwrap();
    assert!(!cli.print_help);
    assert!(!cli.print_version);
    assert_eq!(cli.config_path, None);
    assert_eq!(cli.echo_msg, None);
}

#[test]
fn cmdline_history_dedups_and_walks() {
    let mut c = CmdLine::new();
    assert_eq!(c.value().as_str(), "");
    c.push_history("pause".to_string());
    c.push_history("resume".to_string());
    c.push_history("pause".to_string());
    assert_eq!(c.history, vec!["resume".to_string(), "pause".to_string()]);
    // Walking back visits newest first.
    c.prev_history();
    assert_eq!(c.value().as_str(), "pause");
    c.prev_history();
    assert_eq!(c.value().as_str(), "resume");
    // The oldest entry is where the walk stops.
    c.prev_history();
    assert_eq!(c.value().as_str(), "resume");
    // Walking forward again, past the newest the line empties.
    c.next_history();
    assert_eq!(c.value().as_str(), "pause");
    c.next_history();
    assert_eq!(c.value().as_str(), "");
    assert_eq!(c.cur_history_item, None);
}

#[test]
fn cmdline_clear_keeps_history() {
    let mut c = CmdLine::new();
    c.push_history("stop".to_string());
    c.value = "half-typed".to_string();
    c.clear();
    assert_eq!(c.value().as_str(), "");
    assert_eq!(c.history.len(), 1);
    // With no walk under way, stepping forward does nothing.
    c.next_history();
    assert_eq!(c.value().as_str(), "");
}

#[test]
fn update_errors_are_classified_for_silence() {
    assert!(UpdateError::Playback(PlaybackError::NoMore).is_silent());
    assert!(UpdateError::Playback(PlaybackError::NoAudio).is_silent());
    assert!(!UpdateError::Playback(PlaybackError::Io).is_silent());
    assert!(!UpdateError::Cmd(CmdError::NoSuchCmd).is_silent());
    assert!(!UpdateError::Cmd(CmdError::NotEnoughArgs).is_silent());
}
