use vstd::prelude::*;
use crate::connection::{GetCurrentStatus, GetHistoryStatus, GetQueueStatus};
use crate::gateway::{MessageRef, RawCommand};
use crate::queue::DropKind;

verus! {

/// The words of `s` as a POSIX shell splits them, or `None` where the text
/// cannot be split (a quote left open).
pub uninterp spec fn shell_split(s: Seq<char>) -> Option<Seq<Seq<char>>>;

/// The text of each word.
pub open spec fn texts(v: Seq<String>) -> Seq<Seq<char>> {
    v.map_values(|w: String| w@)
}

/// Relies on `shell_words::split`: it fails, with a message, exactly where
/// the text cannot be split, and otherwise returns the words.
#[verifier::external_body]
fn split_shell_words(s: &str) -> (r: Result<Vec<String>, String>)
    ensures
        match shell_split(s@) {
            Some(ws) => r matches Ok(v) && texts(v@) == ws,
            None => r is Err,
        },
{
    shell_words::split(s).map_err(|e| e.to_string())
}

/// The word that opens every command.
pub open spec fn prefix() -> Seq<char> {
    seq!['*', 'v']
}

/// Keeps the words of a message that is a command: one whose first word is
/// the command prefix.
pub fn select_command(words: Vec<String>) -> (r: Option<Vec<String>>)
    ensures
        r == if words@.len() > 0 && words@[0]@ == prefix() { Some(words) } else { None::<Vec<String>> },
{
    if words.len() == 0 {
        return None;
    }
    let p = String::from_str("*v");
    proof {
        reveal_strlit("*v");
        assert(p@ =~= prefix());
    }
    if words[0] == p {
        Some(words)
    } else {
        None
    }
}

/// Splits incoming messages into words and keeps those that are commands.
#[derive(Debug, Clone, Copy, Default)]
pub struct CommandParser;

impl CommandParser {
    /// The words of `cmd` if it is a command, `None` if it is not, and the
    /// splitter's message if its text cannot be split.
    pub fn handle(&self, cmd: &RawCommand) -> (r: Result<Option<Vec<String>>, String>)
        ensures
            match shell_split(cmd.content@) {
                Some(ws) => r matches Ok(o) && {
                    &&& o is Some <==> (ws.len() > 0 && ws[0] == prefix())
                    &&& o matches Some(v) ==> texts(v@) == ws
                },
                None => r is Err,
            },
    {
        match split_shell_words(cmd.content.as_str()) {
            Ok(words) => {
                let ghost ws = texts(words@);
                assert(words@.len() > 0 ==> ws[0] == words@[0]@);
                Ok(select_command(words))
            },
            Err(e) => Err(e),
        }
    }
}

/// A command of a guild, as the parser reads it. Volumes are in hundredths.
#[derive(Debug, Clone)]
pub enum GuildCommand {
    Join { channel: u64 },
    Leave,
    Slide { from: usize, to: usize },
    Drop { kind: DropKind },
    Fix,
    Stop,
    Enqueue { url: String },
    Play { url: Option<String> },
    Pause,
    Resume,
    Loop,
    Shuffle,
    Volume { percent: u32 },
    VolumeCurrent { percent: u32 },
    ShowCurrent,
    ShowQueue { page: Option<usize> },
    ShowHistory { page: Option<usize> },
}

/// A parsed guild command with its origin.
#[derive(Debug, Clone)]
pub struct GuildCommandData {
    pub cmd: GuildCommand,
    pub from: MessageRef,
    pub guild: u64,
}

/// A request about the connection or the queue of a guild.
#[derive(Debug, Clone)]
pub struct CallAction {
    pub kind: CallActionKind,
    pub from: MessageRef,
    pub guild: u64,
}

#[derive(Debug, Clone)]
pub enum CallActionKind {
    Join { channel: u64 },
    Leave,
    Slide { from: usize, to: usize },
    Drop { kind: DropKind },
    Fix,
    Stop,
}

/// A request about what a guild plays.
#[derive(Debug, Clone)]
pub struct ControlAction {
    pub kind: ControlActionKind,
    pub from: MessageRef,
    pub guild: u64,
}

#[derive(Debug, Clone)]
pub enum ControlActionKind {
    Enqueue { url: String },
    Play { url: Option<String> },
    Pause,
    Resume,
    Loop,
    Shuffle,
    Volume { percent: u32, current_only: bool },
}

/// Where a guild command goes: a connection or queue request, a playback
/// request, or one of the three status views.
#[derive(Debug, Clone)]
pub enum Routed {
    Call(CallAction),
    Control(ControlAction),
    Current(GetCurrentStatus, MessageRef),
    Queue(GetQueueStatus, MessageRef),
    History(GetHistoryStatus, MessageRef),
}

/// The request that a guild command becomes. A status view without a page
/// shows the first.
pub open spec fn route(d: GuildCommandData) -> Routed {
    let call = |kind: CallActionKind| Routed::Call(CallAction { kind, from: d.from, guild: d.guild });
    let control = |kind: ControlActionKind| Routed::Control(ControlAction { kind, from: d.from, guild: d.guild });
    let page = |p: Option<usize>| match p { Some(n) => n, None => 1usize };
    match d.cmd {
        GuildCommand::Join { channel } => call(CallActionKind::Join { channel }),
        GuildCommand::Leave => call(CallActionKind::Leave),
        GuildCommand::Slide { from, to } => call(CallActionKind::Slide { from, to }),
        GuildCommand::Drop { kind } => call(CallActionKind::Drop { kind }),
        GuildCommand::Fix => call(CallActionKind::Fix),
        GuildCommand::Stop => call(CallActionKind::Stop),
        GuildCommand::Enqueue { url } => control(ControlActionKind::Enqueue { url }),
        GuildCommand::Play { url } => control(ControlActionKind::Play { url }),
        GuildCommand::Pause => control(ControlActionKind::Pause),
        GuildCommand::Resume => control(ControlActionKind::Resume),
        GuildCommand::Loop => control(ControlActionKind::Loop),
        GuildCommand::Shuffle => control(ControlActionKind::Shuffle),
        GuildCommand::Volume { percent } => control(ControlActionKind::Volume { percent, current_only: false }),
        GuildCommand::VolumeCurrent { percent } => control(ControlActionKind::Volume { percent, current_only: true }),
        GuildCommand::ShowCurrent => Routed::Current(GetCurrentStatus { guild: d.guild }, d.from),
        GuildCommand::ShowQueue { page: p } => Routed::Queue(GetQueueStatus { guild: d.guild, page: page(p) }, d.from),
        GuildCommand::ShowHistory { page: p } => Routed::History(GetHistoryStatus { guild: d.guild, page: page(p) }, d.from),
    }
}

/// Sends each guild command on to the part of the library that serves it.
#[derive(Debug, Clone, Copy, Default)]
pub struct GuildCommandProcesser;

impl GuildCommandProcesser {
    /// The request that `data` becomes.
    pub fn handle(&self, data: GuildCommandData) -> (r: Routed)
        ensures
            r == route(data),
    {
        let from = data.from;
        let guild = data.guild;
        match data.cmd {
            GuildCommand::Join { channel } => Routed::Call(CallAction { kind: CallActionKind::Join { channel }, from, guild }),
            GuildCommand::Leave => Routed::Call(CallAction { kind: CallActionKind::Leave, from, guild }),
            GuildCommand::Slide { from: origin, to } => Routed::Call(CallAction { kind: CallActionKind::Slide { from: origin, to }, from, guild }),
            GuildCommand::Drop { kind } => Routed::Call(CallAction { kind: CallActionKind::Drop { kind }, from, guild }),
            GuildCommand::Fix => Routed::Call(CallAction { kind: CallActionKind::Fix, from, guild }),
            GuildCommand::Stop => Routed::Call(CallAction { kind: CallActionKind::Stop, from, guild }),
            GuildCommand::Enqueue { url } => Routed::Control(ControlAction { kind: ControlActionKind::Enqueue { url }, from, guild }),
            GuildCommand::Play { url } => Routed::Control(ControlAction { kind: ControlActionKind::Play { url }, from, guild }),
            GuildCommand::Pause => Routed::Control(ControlAction { kind: ControlActionKind::Pause, from, guild }),
            GuildCommand::Resume => Routed::Control(ControlAction { kind: ControlActionKind::Resume, from, guild }),
            GuildCommand::Loop => Routed::Control(ControlAction { kind: ControlActionKind::Loop, from, guild }),
            GuildCommand::Shuffle => Routed::Control(ControlAction { kind: ControlActionKind::Shuffle, from, guild }),
            GuildCommand::Volume { percent } => Routed::Control(ControlAction {
                kind: ControlActionKind::Volume { percent, current_only: false },
                from,
                guild,
            }),
            GuildCommand::VolumeCurrent { percent } => Routed::Control(ControlAction {
                kind: ControlActionKind::Volume { percent, current_only: true },
                from,
                guild,
            }),
            GuildCommand::ShowCurrent => Routed::Current(GetCurrentStatus { guild }, from),
            GuildCommand::ShowQueue { page } => {
                let page = match page {
                    Some(n) => n,
                    None => 1,
                };
                Routed::Queue(GetQueueStatus { guild, page }, from)
            },
            GuildCommand::ShowHistory { page } => {
                let page = match page {
                    Some(n) => n,
                    None => 1,
                };
                Routed::History(GetHistoryStatus { guild, page }, from)
            },
        }
    }
}

} // verus!
