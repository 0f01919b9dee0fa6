use vstd::prelude::*;

verus! {

/// Where a command came from: its message and the channel it was posted in.
#[derive(Debug, Clone, Copy, PartialEq, Eq, Structural)]
pub struct MessageRef {
    pub message: u64,
    pub channel: u64,
}

/// A chat message as the command parser receives it.
#[derive(Debug, Clone)]
pub struct RawCommand {
    pub content: String,
    pub user: u64,
    pub from: MessageRef,
    pub guild: Option<u64>,
}

/// The entry point for chat messages: it hands each one on to the parser.
#[derive(Debug, Clone, Copy, Default)]
pub struct Gateway;

/// A chat message as the chat gateway delivers it.
#[derive(Debug, Clone)]
pub struct GatewayMessage {
    pub content: String,
    pub user: u64,
    pub from: MessageRef,
    pub guild: Option<u64>,
}

impl Gateway {
    /// The command that a delivered message becomes, field for field.
    pub fn handle(&self, msg: GatewayMessage) -> (r: RawCommand)
        ensures
            r.content == msg.content,
            r.user == msg.user,
            r.from == msg.from,
            r.guild == msg.guild,
    {
        RawCommand { content: msg.content, user: msg.user, from: msg.from, guild: msg.guild }
    }
}

/// Whether a reply reports success or failure.
#[derive(Debug, Clone, Copy, PartialEq, Eq, Structural)]
pub enum ReplyKind {
    Success,
    Failure,
}

/// One reply to one command: its text, its outcome and where it goes.
#[derive(Debug, Clone)]
pub struct Reply {
    pub msg: String,
    pub kind: ReplyKind,
    pub to: MessageRef,
}

} // verus!
