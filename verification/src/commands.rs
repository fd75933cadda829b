//! The command set of the command line, and its interpreter.
//!
//! A command arrives as one line of text; it is split into a name and
//! arguments, resolved against the command table, and dispatched onto the
//! player engine. Anything touching the file system (adding tracks by
//! path) is handed back to the caller as a request instead.
use vstd::prelude::*;
use vstd::view::View as _;

use crate::app::{Notif, State};
use crate::player::{LoopState, Playback, PlaybackError, PlaybackResult, Player, Session};
use crate::text::{dec_value, head_word, is_dec_u64, parse_dec, split_first_word, split_parts,
    split_str, str_eq, tail_after_word, trim, trim_str};
use crate::Action;

verus! {

/// Why a command line could not be interpreted.
#[derive(Debug)]
pub enum CmdError {
    NoSuchCmd,
    NotEnoughArgs,
    /// The argument could not be read as the expected kind of value.
    InvalidArg(String),
    /// The path argument names nothing on disk.
    NoSuchFile(String),
}

impl CmdError {
    pub open spec fn spec_eq(self, other: CmdError) -> bool {
        match (self, other) {
            (CmdError::NoSuchCmd, CmdError::NoSuchCmd) => true,
            (CmdError::NotEnoughArgs, CmdError::NotEnoughArgs) => true,
            (CmdError::InvalidArg(a), CmdError::InvalidArg(b)) => a@ == b@,
            (CmdError::NoSuchFile(a), CmdError::NoSuchFile(b)) => a@ == b@,
            _ => false,
        }
    }
}

impl PartialEq for CmdError {
    fn eq(&self, other: &CmdError) -> (r: bool) {
        match (self, other) {
            (CmdError::NoSuchCmd, CmdError::NoSuchCmd) => true,
            (CmdError::NotEnoughArgs, CmdError::NotEnoughArgs) => true,
            (CmdError::InvalidArg(a), CmdError::InvalidArg(b)) => str_eq(a.as_str(), b.as_str()),
            (CmdError::NoSuchFile(a), CmdError::NoSuchFile(b)) => str_eq(a.as_str(), b.as_str()),
            _ => false,
        }
    }
}

impl vstd::std_specs::cmp::PartialEqSpecImpl for CmdError {
    open spec fn obeys_eq_spec() -> bool {
        true
    }

    open spec fn eq_spec(&self, other: &CmdError) -> bool {
        self.spec_eq(*other)
    }
}

/// An error raised while carrying a command out.
#[derive(Debug)]
pub enum UpdateError {
    Playback(PlaybackError),
    Cmd(CmdError),
}

impl UpdateError {
    /// Whether the error is an expected boundary condition that the
    /// interface passes over silently. Command errors and device failures
    /// are shown to the user instead.
    pub open spec fn spec_is_silent(self) -> bool {
        match self {
            UpdateError::Playback(e) => e.spec_is_boundary(),
            UpdateError::Cmd(_) => false,
        }
    }

    pub fn is_silent(&self) -> (r: bool)
        ensures
            r == self.spec_is_silent(),
    {
        match self {
            UpdateError::Playback(e) => e.is_boundary(),
            UpdateError::Cmd(_) => false,
        }
    }
}

impl From<PlaybackError> for UpdateError {
    fn from(value: PlaybackError) -> (r: UpdateError) {
        UpdateError::Playback(value)
    }
}

impl vstd::std_specs::convert::FromSpecImpl<PlaybackError> for UpdateError {
    open spec fn obeys_from_spec() -> bool {
        true
    }

    open spec fn from_spec(value: PlaybackError) -> UpdateError {
        UpdateError::Playback(value)
    }
}

impl From<CmdError> for UpdateError {
    fn from(value: CmdError) -> (r: UpdateError) {
        UpdateError::Cmd(value)
    }
}

impl vstd::std_specs::convert::FromSpecImpl<CmdError> for UpdateError {
    open spec fn obeys_from_spec() -> bool {
        true
    }

    open spec fn from_spec(value: CmdError) -> UpdateError {
        UpdateError::Cmd(value)
    }
}

/// What a command does.
#[derive(Debug, Clone, Copy, PartialEq, Eq, Structural)]
pub enum CmdKind {
    Quit,
    Hello,
    Echo,
    PlayNext,
    PlayPrev,
    Replay,
    Resume,
    Pause,
    Stop,
    Toggle,
    Seek,
    SeekForward,
    SeekBackward,
    Volume,
    VolumeUp,
    VolumeDown,
    VolumeReset,
    Mute,
    Unmute,
    MuteToggle,
    LoopNone,
    LoopQueue,
    LoopShuffle,
    QueueAdd,
    QueueClear,
    QueueShuffle,
}

impl CmdKind {
    /// The placeholder shown for the command's argument, if it takes one.
    pub open spec fn spec_args(self) -> Option<Seq<char>> {
        match self {
            CmdKind::Echo => Some("<MSG>"@),
            CmdKind::Seek => Some("<SECONDS>"@),
            CmdKind::SeekForward => Some("<SECONDS>"@),
            CmdKind::SeekBackward => Some("<SECONDS>"@),
            CmdKind::Volume => Some("<PERCENTAGE>"@),
            CmdKind::VolumeUp => Some("<PERCENTAGE>"@),
            CmdKind::VolumeDown => Some("<PERCENTAGE>"@),
            CmdKind::QueueAdd => Some("<TRACKS>"@),
            _ => None,
        }
    }

    pub fn args(&self) -> (r: Option<&'static str>)
        ensures
            match r {
                Some(t) => self.spec_args() == Some(t@),
                None => self.spec_args() is None,
            },
    {
        match self {
            CmdKind::Echo => Some("<MSG>"),
            CmdKind::Seek => Some("<SECONDS>"),
            CmdKind::SeekForward => Some("<SECONDS>"),
            CmdKind::SeekBackward => Some("<SECONDS>"),
            CmdKind::Volume => Some("<PERCENTAGE>"),
            CmdKind::VolumeUp => Some("<PERCENTAGE>"),
            CmdKind::VolumeDown => Some("<PERCENTAGE>"),
            CmdKind::QueueAdd => Some("<TRACKS>"),
            _ => None,
        }
    }

    /// The one-line description shown in help and completion.
    pub open spec fn spec_description(self) -> Seq<char> {
        match self {
            CmdKind::Quit => "Say \"goodbye\" to VORU"@,
            CmdKind::Hello => "Say \"hello\" to VORU!"@,
            CmdKind::Echo => "Say something else"@,
            CmdKind::PlayNext => "Play next track in the queue"@,
            CmdKind::PlayPrev => "Play previous track in the queue"@,
            CmdKind::Replay => "Play the first track in the queue"@,
            CmdKind::Resume => "Resume playback or replay the current track"@,
            CmdKind::Pause => "Pause playback"@,
            CmdKind::Stop => "Stop playback and clear currently playing track"@,
            CmdKind::Toggle => "Resume/pause playback"@,
            CmdKind::Seek => "Seek to <SECONDS>"@,
            CmdKind::SeekForward => "Seek forward by <SECONDS>"@,
            CmdKind::SeekBackward => "Seek backward by <SECONDS>"@,
            CmdKind::Volume => "Set volume to <PERCENTAGE>"@,
            CmdKind::VolumeUp => "Increase volume by <PERCENTAGE>"@,
            CmdKind::VolumeDown => "Decrease volume by <PERCENTAGE>"@,
            CmdKind::VolumeReset => "Reset volume to 100%"@,
            CmdKind::Mute => "Mute audio"@,
            CmdKind::Unmute => "Unmute audio"@,
            CmdKind::MuteToggle => "Mute/unmute audio"@,
            CmdKind::LoopNone => "Disable looping"@,
            CmdKind::LoopQueue => "Repeat the queue after the end"@,
            CmdKind::LoopShuffle => "Shuffle and repeat the queue after the end"@,
            CmdKind::QueueAdd => "Add <TRACKS> to the queue"@,
            CmdKind::QueueClear => "Clear the queue"@,
            CmdKind::QueueShuffle => "Randomize order of the queue"@,
        }
    }

    pub fn description(&self) -> (r: &'static str)
        ensures
            r@ == self.spec_description(),
    {
        match self {
            CmdKind::Quit => "Say \"goodbye\" to VORU",
            CmdKind::Hello => "Say \"hello\" to VORU!",
            CmdKind::Echo => "Say something else",
            CmdKind::PlayNext => "Play next track in the queue",
            CmdKind::PlayPrev => "Play previous track in the queue",
            CmdKind::Replay => "Play the first track in the queue",
            CmdKind::Resume => "Resume playback or replay the current track",
            CmdKind::Pause => "Pause playback",
            CmdKind::Stop => "Stop playback and clear currently playing track",
            CmdKind::Toggle => "Resume/pause playback",
            CmdKind::Seek => "Seek to <SECONDS>",
            CmdKind::SeekForward => "Seek forward by <SECONDS>",
            CmdKind::SeekBackward => "Seek backward by <SECONDS>",
            CmdKind::Volume => "Set volume to <PERCENTAGE>",
            CmdKind::VolumeUp => "Increase volume by <PERCENTAGE>",
            CmdKind::VolumeDown => "Decrease volume by <PERCENTAGE>",
            CmdKind::VolumeReset => "Reset volume to 100%",
            CmdKind::Mute => "Mute audio",
            CmdKind::Unmute => "Unmute audio",
            CmdKind::MuteToggle => "Mute/unmute audio",
            CmdKind::LoopNone => "Disable looping",
            CmdKind::LoopQueue => "Repeat the queue after the end",
            CmdKind::LoopShuffle => "Shuffle and repeat the queue after the end",
            CmdKind::QueueAdd => "Add <TRACKS> to the queue",
            CmdKind::QueueClear => "Clear the queue",
            CmdKind::QueueShuffle => "Randomize order of the queue",
        }
    }
}

/// One entry of the command table: a command name, or an alias for one.
#[derive(Debug)]
pub enum Cmd {
    Normal(&'static str, CmdKind),
    Alias(&'static str, CmdKind, &'static str),
}

impl Cmd {
    pub open spec fn spec_name(self) -> Seq<char> {
        match self {
            Cmd::Normal(name, _) => name@,
            Cmd::Alias(name, _, _) => name@,
        }
    }

    pub open spec fn spec_kind(self) -> CmdKind {
        match self {
            Cmd::Normal(_, kind) => kind,
            Cmd::Alias(_, kind, _) => kind,
        }
    }

    pub open spec fn spec_alias(self) -> Option<Seq<char>> {
        match self {
            Cmd::Normal(_, _) => None,
            Cmd::Alias(_, _, to) => Some(to@),
        }
    }

    pub fn name(&self) -> (r: &'static str)
        ensures
            r@ == self.spec_name(),
    {
        match self {
            Cmd::Normal(name, _) => name,
            Cmd::Alias(name, _, _) => name,
        }
    }

    pub fn kind(&self) -> (r: &CmdKind)
        ensures
            *r == self.spec_kind(),
    {
        match self {
            Cmd::Normal(_, kind) => kind,
            Cmd::Alias(_, kind, _) => kind,
        }
    }

    pub fn is_alias(&self) -> (r: bool)
        ensures
            r == (self.spec_alias() is Some),
    {
        match self {
            Cmd::Normal(_, _) => false,
            Cmd::Alias(_, _, _) => true,
        }
    }
}

/// The index of the first table entry named `name`.
pub open spec fn find_cmd(s: Seq<Cmd>, name: Seq<char>) -> Option<int>
    decreases s.len(),
{
    if s.len() == 0 {
        None
    } else if s[0].spec_name() == name {
        Some(0int)
    } else {
        match find_cmd(s.drop_first(), name) {
            Some(j) => Some(j + 1),
            None => None,
        }
    }
}

/// The command table.
#[derive(Debug)]
pub struct Commands {
    pub list: Vec<Cmd>,
}

/// Every command and alias, in the order help and completion show them.
pub open spec fn spec_command_list() -> Seq<Cmd> {
    seq![
        Cmd::Normal("quit", CmdKind::Quit),
        Cmd::Alias("q", CmdKind::Quit, "quit"),
        Cmd::Alias("bye", CmdKind::Quit, "quit"),
        Cmd::Normal("hello", CmdKind::Hello),
        Cmd::Normal("echo", CmdKind::Echo),
        Cmd::Normal("play-next", CmdKind::PlayNext),
        Cmd::Alias("next", CmdKind::PlayNext, "play-next"),
        Cmd::Normal("play-prev", CmdKind::PlayPrev),
        Cmd::Alias("prev", CmdKind::PlayPrev, "play-prev"),
        Cmd::Normal("replay", CmdKind::Replay),
        Cmd::Normal("resume", CmdKind::Resume),
        Cmd::Normal("pause", CmdKind::Pause),
        Cmd::Normal("stop", CmdKind::Stop),
        Cmd::Normal("toggle", CmdKind::Toggle),
        Cmd::Normal("seek", CmdKind::Seek),
        Cmd::Normal("seek-forw", CmdKind::SeekForward),
        Cmd::Alias("seekf", CmdKind::SeekForward, "seek-forw"),
        Cmd::Normal("seek-back", CmdKind::SeekBackward),
        Cmd::Alias("seekb", CmdKind::SeekBackward, "seek-back"),
        Cmd::Normal("volume", CmdKind::Volume),
        Cmd::Alias("vol", CmdKind::Volume, "volume"),
        Cmd::Normal("volume-up", CmdKind::VolumeUp),
        Cmd::Alias("volup", CmdKind::VolumeUp, "volume-up"),
        Cmd::Normal("volume-down", CmdKind::VolumeDown),
        Cmd::Alias("voldown", CmdKind::VolumeDown, "volume-down"),
        Cmd::Normal("volume-reset", CmdKind::VolumeReset),
        Cmd::Alias("volreset", CmdKind::VolumeReset, "volume-reset"),
        Cmd::Normal("mute", CmdKind::Mute),
        Cmd::Normal("unmute", CmdKind::Unmute),
        Cmd::Normal("mute-toggle", CmdKind::MuteToggle),
        Cmd::Alias("mutetog", CmdKind::MuteToggle, "mute-toggle"),
        Cmd::Normal("loop-none", CmdKind::LoopNone),
        Cmd::Normal("loop-queue", CmdKind::LoopQueue),
        Cmd::Normal("loop-shuffle", CmdKind::LoopShuffle),
        Cmd::Normal("queue-add", CmdKind::QueueAdd),
        Cmd::Alias("add", CmdKind::QueueAdd, "queue-add"),
        Cmd::Normal("queue-clear", CmdKind::QueueClear),
        Cmd::Alias("clear", CmdKind::QueueClear, "queue-clear"),
        Cmd::Normal("queue-shuffle", CmdKind::QueueShuffle),
        Cmd::Alias("shuffle", CmdKind::QueueShuffle, "queue-shuffle"),
    ]
}

/// What a command a caller asked for shows: the formatted command name
/// with its argument placeholder appended.
pub open spec fn spec_display_name(c: Cmd) -> Seq<char> {
    match c.spec_kind().spec_args() {
        Some(a) => c.spec_name() + " "@ + a,
        None => c.spec_name(),
    }
}

/// The description shown for a command, naming the alias target first
/// when the entry is an alias.
pub open spec fn spec_display_desc(c: Cmd) -> Seq<char> {
    match c.spec_alias() {
        Some(to) => "(alias to :"@ + to + ") "@ + c.spec_kind().spec_description(),
        None => c.spec_kind().spec_description(),
    }
}

impl Commands {
    pub fn new() -> (r: Commands)
        ensures
            r.list@ == spec_command_list(),
    {
        let mut list: Vec<Cmd> = Vec::new();
        list.push(Cmd::Normal("quit", CmdKind::Quit));
        list.push(Cmd::Alias("q", CmdKind::Quit, "quit"));
        list.push(Cmd::Alias("bye", CmdKind::Quit, "quit"));
        list.push(Cmd::Normal("hello", CmdKind::Hello));
        list.push(Cmd::Normal("echo", CmdKind::Echo));
        list.push(Cmd::Normal("play-next", CmdKind::PlayNext));
        list.push(Cmd::Alias("next", CmdKind::PlayNext, "play-next"));
        list.push(Cmd::Normal("play-prev", CmdKind::PlayPrev));
        list.push(Cmd::Alias("prev", CmdKind::PlayPrev, "play-prev"));
        list.push(Cmd::Normal("replay", CmdKind::Replay));
        list.push(Cmd::Normal("resume", CmdKind::Resume));
        list.push(Cmd::Normal("pause", CmdKind::Pause));
        list.push(Cmd::Normal("stop", CmdKind::Stop));
        list.push(Cmd::Normal("toggle", CmdKind::Toggle));
        list.push(Cmd::Normal("seek", CmdKind::Seek));
        list.push(Cmd::Normal("seek-forw", CmdKind::SeekForward));
        list.push(Cmd::Alias("seekf", CmdKind::SeekForward, "seek-forw"));
        list.push(Cmd::Normal("seek-back", CmdKind::SeekBackward));
        list.push(Cmd::Alias("seekb", CmdKind::SeekBackward, "seek-back"));
        list.push(Cmd::Normal("volume", CmdKind::Volume));
        list.push(Cmd::Alias("vol", CmdKind::Volume, "volume"));
        list.push(Cmd::Normal("volume-up", CmdKind::VolumeUp));
        list.push(Cmd::Alias("volup", CmdKind::VolumeUp, "volume-up"));
        list.push(Cmd::Normal("volume-down", CmdKind::VolumeDown));
        list.push(Cmd::Alias("voldown", CmdKind::VolumeDown, "volume-down"));
        list.push(Cmd::Normal("volume-reset", CmdKind::VolumeReset));
        list.push(Cmd::Alias("volreset", CmdKind::VolumeReset, "volume-reset"));
        list.push(Cmd::Normal("mute", CmdKind::Mute));
        list.push(Cmd::Normal("unmute", CmdKind::Unmute));
        list.push(Cmd::Normal("mute-toggle", CmdKind::MuteToggle));
        list.push(Cmd::Alias("mutetog", CmdKind::MuteToggle, "mute-toggle"));
        list.push(Cmd::Normal("loop-none", CmdKind::LoopNone));
        list.push(Cmd::Normal("loop-queue", CmdKind::LoopQueue));
        list.push(Cmd::Normal("loop-shuffle", CmdKind::LoopShuffle));
        list.push(Cmd::Normal("queue-add", CmdKind::QueueAdd));
        list.push(Cmd::Alias("add", CmdKind::QueueAdd, "queue-add"));
        list.push(Cmd::Normal("queue-clear", CmdKind::QueueClear));
        list.push(Cmd::Alias("clear", CmdKind::QueueClear, "queue-clear"));
        list.push(Cmd::Normal("queue-shuffle", CmdKind::QueueShuffle));
        list.push(Cmd::Alias("shuffle", CmdKind::QueueShuffle, "queue-shuffle"));
        proof {
            assert(list@ =~= spec_command_list());
        }
        Commands { list }
    }

    /// The formatted command list: whether the entry is an alias, the name
    /// with its argument placeholder, and the description.
    pub fn formatted_list(&self) -> (r: Vec<(bool, String, String)>)
        ensures
            r@.len() == self.list@.len(),
            forall|k: int|
                0 <= k < r@.len() ==> {
                    &&& #[trigger] r@[k].0 == (self.list@[k].spec_alias() is Some)
                    &&& r@[k].1@ == spec_display_name(self.list@[k])
                    &&& r@[k].2@ == spec_display_desc(self.list@[k])
                },
    {
        let mut result: Vec<(bool, String, String)> = Vec::new();
        let n = self.list.len();
        let mut k: usize = 0;
        while k < n
            invariant
                n == self.list@.len(),
                k <= n,
                result@.len() == k,
                forall|j: int|
                    0 <= j < k ==> {
                        &&& #[trigger] result@[j].0 == (self.list@[j].spec_alias() is Some)
                        &&& result@[j].1@ == spec_display_name(self.list@[j])
                        &&& result@[j].2@ == spec_display_desc(self.list@[j])
                    },
            decreases n - k,
        {
            let cmd = &self.list[k];
            let kind = cmd.kind();
            let is_alias = cmd.is_alias();

            let mut name = String::from_str(cmd.name());
            match kind.args() {
                Some(args) => {
                    name.append(" ");
                    name.append(args);
                },
                None => {},
            }

            let desc = match cmd {
                Cmd::Normal(_, kind) => String::from_str(kind.description()),
                Cmd::Alias(_, kind, to) => {
                    let mut d = String::from_str("(alias to :");
                    d.append(to);
                    d.append(") ");
                    d.append(kind.description());
                    d
                },
            };

            result.push((is_alias, name, desc));
            k = k + 1;
        }
        result
    }

    /// Looks a command up by its exact name.
    pub fn find(&self, name: &str) -> (r: Option<&Cmd>)
        ensures
            match r {
                Some(c) => match find_cmd(self.list@, name@) {
                    Some(j) => *c == self.list@[j],
                    None => false,
                },
                None => find_cmd(self.list@, name@) is None,
            },
    {
        let n = self.list.len();
        proof {
            assert(self.list@.subrange(0, n as int) =~= self.list@);
        }
        let mut k: usize = 0;
        while k < n
            invariant
                n == self.list@.len(),
                k <= n,
                find_cmd(self.list@, name@) == match find_cmd(
                    self.list@.subrange(k as int, n as int),
                    name@,
                ) {
                    Some(j) => Some(j + k),
                    None => None::<int>,
                },
            decreases n - k,
        {
            let ghost rest = self.list@.subrange(k as int, n as int);
            proof {
                assert(rest[0] == self.list@[k as int]);
                assert(rest.drop_first() =~= self.list@.subrange(k as int + 1, n as int));
            }
            if str_eq(self.list[k].name(), name) {
                return Some(&self.list[k]);
            }
            k = k + 1;
        }
        None
    }
}

/// Milliseconds for a whole number of seconds, capped at what fits.
pub open spec fn secs_to_ms(secs: int) -> int {
    if secs * 1000 > u64::MAX as int {
        u64::MAX as int
    } else {
        secs * 1000
    }
}

/// Reads a whole number of seconds and yields milliseconds.
pub fn parse_secs(arg: Option<&String>) -> (r: Result<u64, CmdError>)
    ensures
        match arg {
            None => r matches Err(e) && e is NotEnoughArgs,
            Some(s) => if is_dec_u64(s@, u64::MAX as int) {
                r matches Ok(ms) && ms == secs_to_ms(dec_value(s@))
            } else {
                r matches Err(e) && e matches CmdError::InvalidArg(t) && t@ == s@
            },
        },
{
    let s = match arg {
        Some(s) => s,
        None => {
            return Err(CmdError::NotEnoughArgs);
        },
    };
    match parse_dec(s.as_str(), u64::MAX) {
        Some(secs) => {
            if secs > u64::MAX / 1000 {
                proof {
                    assert(secs * 1000 > u64::MAX as int) by (nonlinear_arith)
                        requires
                            secs > u64::MAX / 1000,
                            secs <= u64::MAX,
                    ;
                }
                Ok(u64::MAX)
            } else {
                proof {
                    assert(secs * 1000 <= u64::MAX as int) by (nonlinear_arith)
                        requires
                            secs <= u64::MAX / 1000,
                    ;
                }
                Ok(secs * 1000)
            }
        },
        None => Err(CmdError::InvalidArg(s.clone())),
    }
}

/// What interpreting a command asks of the caller.
#[derive(Debug)]
pub enum CmdOutcome {
    /// Done; the caller only acts on the returned action.
    Act(Action),
    /// The caller must resolve these path arguments against the file
    /// system, load them as tracks, and append them to the queue.
    AddTracks(Vec<String>),
}

/// The result expected of an engine call made for a command: a redraw on
/// success, the engine's own error otherwise.
pub open spec fn act_result(inner: PlaybackResult, r: Result<CmdOutcome, UpdateError>) -> bool {
    match inner {
        Ok(_) => r matches Ok(o) && o matches CmdOutcome::Act(a) && a == Action::Draw,
        Err(e) => r matches Err(ue) && ue matches UpdateError::Playback(pe) && pe == e,
    }
}

/// The state shows the given message as a plain notification.
pub open spec fn state_notified(s0: State, s1: State, msg: Seq<char>) -> bool {
    &&& s1.mode == s0.mode
    &&& s1.view == s0.view
    &&& s1.notif matches Some(n) && n matches Notif::Normal(v) && v@ == msg
}

/// The command failed on its argument: the given command error comes
/// back and nothing changes.
pub open spec fn arg_failed(
    e0: CmdError,
    s0: State,
    s1: State,
    p0: Player,
    p1: Player,
    r: Result<CmdOutcome, UpdateError>,
) -> bool {
    &&& r matches Err(ue) && ue matches UpdateError::Cmd(ce) && ce.spec_eq(e0)
    &&& p1 == p0
    &&& s1 == s0
}

/// Seeking as a command does it: to `pos`, clamped near the end.
pub open spec fn seek_arm(p0: Player, p1: Player, pos: u64, r: Result<
    CmdOutcome,
    UpdateError,
>) -> bool {
    match p0.playback.session {
        None => p1 == p0 && act_result(Err(PlaybackError::NoAudio), r),
        Some(s) => p1 == (Player {
            playback: Playback {
                session: Some(Session { pos: p0.playback.spec_seek_target(pos), ..s }),
            },
            ..p0
        }) && act_result(Ok(()), r),
    }
}

/// What each command kind does to the interface state and the player,
/// and what it returns, given the argument text.
pub open spec fn cmd_dispatch_post(
    kind: CmdKind,
    s0: State,
    s1: State,
    p0: Player,
    p1: Player,
    rest: Seq<char>,
    args: Seq<Seq<char>>,
    r: Result<CmdOutcome, UpdateError>,
) -> bool {
    match kind {
        CmdKind::Quit => s1 == s0 && p1 == p0 && (r matches Ok(o) && o matches CmdOutcome::Act(a)
            && a == Action::Quit),
        CmdKind::Hello => p1 == p0 && state_notified(s0, s1, "hey"@) && act_result(Ok(()), r),
        CmdKind::Echo => p1 == p0 && state_notified(s0, s1, rest) && act_result(Ok(()), r),
        CmdKind::PlayNext => s1 == s0 && match r {
            Ok(o) => o matches CmdOutcome::Act(a) && a == Action::Draw && p0.play_next_post(
                p1,
                Ok(()),
            ),
            Err(ue) => ue matches UpdateError::Playback(pe) && p0.play_next_post(p1, Err(pe)),
        },
        CmdKind::PlayPrev => s1 == s0 && match r {
            Ok(o) => o matches CmdOutcome::Act(a) && a == Action::Draw && p0.play_prev_post(
                p1,
                Ok(()),
            ),
            Err(ue) => ue matches UpdateError::Playback(pe) && p0.play_prev_post(p1, Err(pe)),
        },
        CmdKind::Replay => s1 == s0 && if p0.queue@.len() > 0 {
            p1 == p0.spec_play(0) && act_result(Ok(()), r)
        } else {
            p1 == p0 && act_result(Err(PlaybackError::NoTrack), r)
        },
        CmdKind::Resume => s1 == s0 && match r {
            Ok(o) => o matches CmdOutcome::Act(a) && a == Action::Draw && p0.resume_post(
                p1,
                Ok(()),
            ),
            Err(ue) => ue matches UpdateError::Playback(pe) && p0.resume_post(p1, Err(pe)),
        },
        CmdKind::Pause => s1 == s0 && match r {
            Ok(o) => o matches CmdOutcome::Act(a) && a == Action::Draw && p0.pause_post(
                p1,
                Ok(()),
            ),
            Err(ue) => ue matches UpdateError::Playback(pe) && p0.pause_post(p1, Err(pe)),
        },
        CmdKind::Stop => s1 == s0 && match r {
            Ok(o) => o matches CmdOutcome::Act(a) && a == Action::Draw && p0.stop_post(p1, Ok(())),
            Err(ue) => ue matches UpdateError::Playback(pe) && p0.stop_post(p1, Err(pe)),
        },
        CmdKind::Toggle => s1 == s0 && match r {
            Ok(o) => o matches CmdOutcome::Act(a) && a == Action::Draw && p0.toggle_post(
                p1,
                Ok(()),
            ),
            Err(ue) => ue matches UpdateError::Playback(pe) && p0.toggle_post(p1, Err(pe)),
        },
        CmdKind::Seek => if args.len() == 0 {
            arg_failed(CmdError::NotEnoughArgs, s0, s1, p0, p1, r)
        } else if is_dec_u64(args[0], u64::MAX as int) {
            s1 == s0 && seek_arm(p0, p1, secs_to_ms(dec_value(args[0])) as u64, r)
        } else {
            &&& r matches Err(ue) && ue matches UpdateError::Cmd(ce) && ce
                matches CmdError::InvalidArg(t) && t@ == args[0]
            &&& p1 == p0
            &&& s1 == s0
        },
        CmdKind::SeekForward => if args.len() == 0 {
            arg_failed(CmdError::NotEnoughArgs, s0, s1, p0, p1, r)
        } else if is_dec_u64(args[0], u64::MAX as int) {
            s1 == s0 && match p0.playback.session {
                None => p1 == p0 && act_result(Err(PlaybackError::NoAudio), r),
                Some(s) => seek_arm(
                    p0,
                    p1,
                    crate::time::sat64(s.pos + secs_to_ms(dec_value(args[0]))) as u64,
                    r,
                ),
            }
        } else {
            &&& r matches Err(ue) && ue matches UpdateError::Cmd(ce) && ce
                matches CmdError::InvalidArg(t) && t@ == args[0]
            &&& p1 == p0
            &&& s1 == s0
        },
        CmdKind::SeekBackward => if args.len() == 0 {
            arg_failed(CmdError::NotEnoughArgs, s0, s1, p0, p1, r)
        } else if is_dec_u64(args[0], u64::MAX as int) {
            s1 == s0 && match p0.playback.session {
                None => p1 == p0 && act_result(Err(PlaybackError::NoAudio), r),
                Some(s) => {
                    let ms = secs_to_ms(dec_value(args[0]));
                    let target = if s.pos as int >= ms {
                        s.pos as int - ms
                    } else {
                        0
                    };
                    seek_arm(p0, p1, target as u64, r)
                },
            }
        } else {
            &&& r matches Err(ue) && ue matches UpdateError::Cmd(ce) && ce
                matches CmdError::InvalidArg(t) && t@ == args[0]
            &&& p1 == p0
            &&& s1 == s0
        },
        CmdKind::Volume => volume_arm_post(args, s0, s1, p0, p1, r, VolumeArm::SetTo),
        CmdKind::VolumeUp => volume_arm_post(args, s0, s1, p0, p1, r, VolumeArm::Up),
        CmdKind::VolumeDown => volume_arm_post(args, s0, s1, p0, p1, r, VolumeArm::Down),
        CmdKind::VolumeReset => s1 == s0 && p1 == p0.spec_set_volume(100) && act_result(
            if p0.playback.session is Some {
                Ok(())
            } else {
                Err(PlaybackError::NoAudio)
            },
            r,
        ),
        CmdKind::Mute => s1 == s0 && p1 == p0.spec_set_muted(true) && act_result(
            if p0.playback.session is Some {
                Ok(())
            } else {
                Err(PlaybackError::NoAudio)
            },
            r,
        ),
        CmdKind::Unmute => s1 == s0 && p1 == p0.spec_set_muted(false) && act_result(
            if p0.playback.session is Some {
                Ok(())
            } else {
                Err(PlaybackError::NoAudio)
            },
            r,
        ),
        CmdKind::MuteToggle => s1 == s0 && p1 == p0.spec_set_muted(!p0.muted) && act_result(
            if p0.playback.session is Some {
                Ok(())
            } else {
                Err(PlaybackError::NoAudio)
            },
            r,
        ),
        CmdKind::LoopNone => s1 == s0 && p1 == (Player { loopstate: LoopState::Off, ..p0 })
            && act_result(Ok(()), r),
        CmdKind::LoopQueue => s1 == s0 && p1 == (Player { loopstate: LoopState::Queue, ..p0 })
            && act_result(Ok(()), r),
        CmdKind::LoopShuffle => s1 == s0 && p1 == (Player { loopstate: LoopState::Shuffle, ..p0 })
            && act_result(Ok(()), r),
        CmdKind::QueueAdd => if args.len() == 0 {
            arg_failed(CmdError::NotEnoughArgs, s0, s1, p0, p1, r)
        } else {
            &&& p1 == p0
            &&& s1 == s0
            &&& r matches Ok(o) && o matches CmdOutcome::AddTracks(paths) && paths@.map_values(
                |t: String| t@,
            ) == args
        },
        CmdKind::QueueClear => s1 == s0 && match r {
            Ok(o) => o matches CmdOutcome::Act(a) && a == Action::Draw && p0.queue_clear_post(
                p1,
                Ok(()),
            ),
            Err(ue) => ue matches UpdateError::Playback(pe) && p0.queue_clear_post(p1, Err(pe)),
        },
        CmdKind::QueueShuffle => s1 == s0 && p0.queue_shuffle_post(p1) && act_result(Ok(()), r),
    }
}

/// Which way a volume command moves the stored volume.
pub enum VolumeArm {
    SetTo,
    Up,
    Down,
}

/// A volume command: its argument is a percentage; the stored volume is
/// set, raised or lowered, and the effective volume re-applied.
pub open spec fn volume_arm_post(
    args: Seq<Seq<char>>,
    s0: State,
    s1: State,
    p0: Player,
    p1: Player,
    r: Result<CmdOutcome, UpdateError>,
    arm: VolumeArm,
) -> bool {
    if args.len() == 0 {
        arg_failed(CmdError::NotEnoughArgs, s0, s1, p0, p1, r)
    } else if is_dec_u64(strip_percents(args[0]), u16::MAX as int) {
        let v = dec_value(strip_percents(args[0])) as u16;
        let target = match arm {
            VolumeArm::SetTo => v as int,
            VolumeArm::Up => crate::widget::cap16(p0.volume + v),
            VolumeArm::Down => if p0.volume >= v {
                p0.volume - v
            } else {
                0
            },
        };
        &&& s1 == s0
        &&& p1 == p0.spec_set_volume(target as u16)
        &&& act_result(
            if p0.playback.session is Some {
                Ok(())
            } else {
                Err(PlaybackError::NoAudio)
            },
            r,
        )
    } else {
        &&& r matches Err(ue) && ue matches UpdateError::Cmd(ce) && ce
            matches CmdError::InvalidArg(t) && t@ == strip_percents(args[0])
        &&& p1 == p0
        &&& s1 == s0
    }
}

/// Interprets one command line: splits it into a name and arguments,
/// resolves the name, and carries the command out on the player and the
/// interface state. Adding tracks needs the file system and comes back
/// as a request instead.
pub fn exec_command(commands: &Commands, state: &mut State, player: &mut Player, command: &str)
    -> (r: Result<CmdOutcome, UpdateError>)
    requires
        old(player).wf(),
    ensures
        final(player).wf(),
        ({
            let t = trim(command@);
            let name = head_word(t);
            let rest = trim(tail_after_word(t));
            let args = split_parts(rest, ' ');
            match find_cmd(commands.list@, name) {
                None => {
                    &&& r matches Err(ue) && ue matches UpdateError::Cmd(ce) && ce is NoSuchCmd
                    &&& *final(player) == *old(player)
                    &&& *final(state) == *old(state)
                },
                Some(j) => cmd_dispatch_post(
                    commands.list@[j].spec_kind(),
                    *old(state),
                    *final(state),
                    *old(player),
                    *final(player),
                    rest,
                    args,
                    r,
                ),
            }
        }),
{
    let trimmed = trim_str(command);
    let (cmd_name, args_str) = split_first_word(trimmed.as_str());
    let args = split_str(args_str.as_str(), ' ');

    let cmd = match commands.find(cmd_name.as_str()) {
        Some(cmd) => cmd,
        None => {
            return Err(UpdateError::Cmd(CmdError::NoSuchCmd));
        },
    };

    let first_arg: Option<&String> = if args.len() > 0 {
        Some(&args[0])
    } else {
        None
    };

    match cmd.kind() {
        CmdKind::Quit => Ok(CmdOutcome::Act(Action::Quit)),
        CmdKind::Hello => {
            state.notify(Notif::Normal(String::from_str("hey")));
            Ok(CmdOutcome::Act(Action::Draw))
        },
        CmdKind::Echo => {
            state.notify(Notif::Normal(args_str));
            Ok(CmdOutcome::Act(Action::Draw))
        },
        CmdKind::PlayNext => wrap_draw(player.play_next()),
        CmdKind::PlayPrev => wrap_draw(player.play_prev()),
        CmdKind::Replay => wrap_draw(player.replay()),
        CmdKind::Resume => wrap_draw(player.resume()),
        CmdKind::Pause => wrap_draw(player.pause()),
        CmdKind::Stop => wrap_draw(player.stop()),
        CmdKind::Toggle => wrap_draw(player.toggle()),
        CmdKind::Seek => match parse_secs(first_arg) {
            Ok(ms) => wrap_draw(player.seek(ms)),
            Err(e) => Err(UpdateError::Cmd(e)),
        },
        CmdKind::SeekForward => match parse_secs(first_arg) {
            Ok(ms) => wrap_draw(player.seek_forward(ms)),
            Err(e) => Err(UpdateError::Cmd(e)),
        },
        CmdKind::SeekBackward => match parse_secs(first_arg) {
            Ok(ms) => wrap_draw(player.seek_backward(ms)),
            Err(e) => Err(UpdateError::Cmd(e)),
        },
        CmdKind::Volume => match parse_percent(first_arg) {
            Ok(v) => wrap_draw(player.set_volume(v)),
            Err(e) => Err(UpdateError::Cmd(e)),
        },
        CmdKind::VolumeUp => match parse_percent(first_arg) {
            Ok(v) => wrap_draw(player.volume_up(v)),
            Err(e) => Err(UpdateError::Cmd(e)),
        },
        CmdKind::VolumeDown => match parse_percent(first_arg) {
            Ok(v) => wrap_draw(player.volume_down(v)),
            Err(e) => Err(UpdateError::Cmd(e)),
        },
        CmdKind::VolumeReset => wrap_draw(player.set_volume(100)),
        CmdKind::Mute => wrap_draw(player.set_muted(true)),
        CmdKind::Unmute => wrap_draw(player.set_muted(false)),
        CmdKind::MuteToggle => wrap_draw(player.mute_toggle()),
        CmdKind::LoopNone => {
            player.set_loop(LoopState::Off);
            Ok(CmdOutcome::Act(Action::Draw))
        },
        CmdKind::LoopQueue => {
            player.set_loop(LoopState::Queue);
            Ok(CmdOutcome::Act(Action::Draw))
        },
        CmdKind::LoopShuffle => {
            player.set_loop(LoopState::Shuffle);
            Ok(CmdOutcome::Act(Action::Draw))
        },
        CmdKind::QueueAdd => {
            if args.len() == 0 {
                return Err(UpdateError::Cmd(CmdError::NotEnoughArgs));
            }
            Ok(CmdOutcome::AddTracks(args))
        },
        CmdKind::QueueClear => wrap_draw(player.queue_clear()),
        CmdKind::QueueShuffle => {
            player.queue_shuffle();
            Ok(CmdOutcome::Act(Action::Draw))
        },
    }
}

/// Maps an engine result onto the command result: success asks for a
/// redraw.
fn wrap_draw(inner: PlaybackResult) -> (r: Result<CmdOutcome, UpdateError>)
    ensures
        act_result(inner, r),
{
    match inner {
        Ok(_) => Ok(CmdOutcome::Act(Action::Draw)),
        Err(e) => Err(UpdateError::Playback(e)),
    }
}

/// `s` without any trailing percent signs.
pub open spec fn strip_percents(s: Seq<char>) -> Seq<char>
    decreases s.len(),
{
    if s.len() > 0 && s.last() == '%' {
        strip_percents(s.drop_last())
    } else {
        s
    }
}

/// Reads a volume given in percent, `"120"` or `"120%"` alike.
pub fn parse_percent(arg: Option<&String>) -> (r: Result<u16, CmdError>)
    ensures
        match arg {
            None => r matches Err(e) && e is NotEnoughArgs,
            Some(s) => if is_dec_u64(strip_percents(s@), u16::MAX as int) {
                r matches Ok(v) && v == dec_value(strip_percents(s@))
            } else {
                r matches Err(e) && e matches CmdError::InvalidArg(t) && t@ == strip_percents(s@)
            },
        },
{
    let s = match arg {
        Some(s) => s,
        None => {
            return Err(CmdError::NotEnoughArgs);
        },
    };
    let n = s.as_str().unicode_len();
    proof {
        assert(s@.take(n as int) =~= s@);
    }
    let mut end: usize = n;
    while end > 0 && s.as_str().get_char(end - 1) == '%'
        invariant
            n == s@.len(),
            end <= n,
            strip_percents(s@) == strip_percents(s@.take(end as int)),
        decreases end,
    {
        proof {
            assert(s@.take(end as int).drop_last() =~= s@.take(end as int - 1));
        }
        end = end - 1;
    }
    proof {
        assert(strip_percents(s@.take(end as int)) == s@.take(end as int));
    }
    let stripped = s.as_str().substring_char(0, end);
    proof {
        assert(s@.subrange(0, end as int) =~= s@.take(end as int));
    }
    match parse_dec(stripped, 0xffff) {
        Some(v) => Ok(v as u16),
        None => Err(CmdError::InvalidArg(stripped.to_owned())),
    }
}

} // verus!
