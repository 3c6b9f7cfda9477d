//! Inbound messages, outbound commands, and where a reply goes.

use vstd::prelude::*;

verus! {

/// One message received from the transport.
#[derive(Debug, Clone, PartialEq, Eq)]
pub struct InboundMessage {
    /// The verb of the message, such as `PRIVMSG`.
    pub command: String,
    /// The address arguments, in order.
    pub args: Vec<String>,
    /// The free text that closes the message, if it has any.
    pub suffix: Option<String>,
    /// The nickname of whoever sent the message, if known.
    pub source: Option<String>,
}

/// An inbound message as contracts see it.
pub struct MessageView {
    pub command: Seq<char>,
    pub args: Seq<Seq<char>>,
    pub suffix: Option<Seq<char>>,
    pub source: Option<Seq<char>>,
}

/// The contract-level value of an optional string.
pub open spec fn text_view(s: Option<String>) -> Option<Seq<char>> {
    match s {
        Some(text) => Some(text@),
        None => None,
    }
}

impl View for InboundMessage {
    type V = MessageView;

    open spec fn view(&self) -> MessageView {
        MessageView {
            command: self.command@,
            args: self.args@.map_values(|a: String| a@),
            suffix: text_view(self.suffix),
            source: text_view(self.source),
        }
    }
}

/// Something for the transport to carry out.
#[derive(Debug, Clone, PartialEq, Eq)]
pub enum OutboundCommand {
    /// Say `text` to `target`, a channel or a nickname.
    Reply { target: String, text: String },
}

/// An outbound command as contracts see it.
pub enum CommandView {
    Reply { target: Seq<char>, text: Seq<char> },
}

impl View for OutboundCommand {
    type V = CommandView;

    open spec fn view(&self) -> CommandView {
        match *self {
            OutboundCommand::Reply { target, text } => CommandView::Reply {
                target: target@,
                text: text@,
            },
        }
    }
}

/// Whether `c` may not occur in a channel name: a space, a bell or a comma.
pub open spec fn forbidden_in_channel(c: char) -> bool {
    c == ' ' || c == '\u{7}' || c == ','
}

/// Whether `name` denotes a channel: it starts with `#` or `&` and holds no
/// space, bell or comma.
pub open spec fn channel_name(name: Seq<char>) -> bool {
    &&& name.len() > 0
    &&& (name[0] == '#' || name[0] == '&')
    &&& forall|i: int| 0 <= i < name.len() ==> !forbidden_in_channel(#[trigger] name[i])
}

/// Where a reply to `msg` goes: the first address argument if that is a
/// channel, else the sender, else nowhere.
pub open spec fn reply_target(msg: MessageView) -> Option<Seq<char>> {
    if msg.args.len() > 0 && channel_name(msg.args[0]) {
        Some(msg.args[0])
    } else {
        msg.source
    }
}

/// Determines whether a string names a channel.
pub fn is_channel(s: &str) -> (channel: bool)
    ensures
        channel == channel_name(s@),
{
    let mut first = true;
    for c in it: s.chars()
        invariant
            it.seq() == s@,
            first == (it.index() == 0),
            it.index() > 0 ==> (s@[0] == '#' || s@[0] == '&'),
            forall|i: int| 0 <= i < it.index() ==> !forbidden_in_channel(#[trigger] s@[i]),
    {
        if first {
            if c != '#' && c != '&' {
                return false;
            }
            first = false;
        } else if c == ' ' || c == '\u{7}' || c == ',' {
            return false;
        }
    }
    !first
}

/// Determines where to reply to a message: to the whole channel if the
/// message went to one, else directly to its sender.
pub fn get_reply_target(msg: &InboundMessage) -> (target: Option<&str>)
    ensures
        target is Some <==> reply_target(msg@) is Some,
        target matches Some(t) ==> Some(t@) == reply_target(msg@),
{
    if msg.args.len() > 0 && is_channel(msg.args[0].as_str()) {
        Some(msg.args[0].as_str())
    } else {
        match &msg.source {
            Some(nickname) => Some(nickname.as_str()),
            None => None,
        }
    }
}

} // verus!
