//! The notification: one human-readable line for an action.

use vstd::prelude::*;
use vstd::string::*;
use crate::model::{Action, ChannelId, Member};
use crate::text::{decimal, push_decimal};

verus! {

/// The name a member is shown under: the nickname followed by the user name
/// in parentheses where a nickname is set, the user name alone otherwise.
pub open spec fn display_name(member: Member) -> Seq<char> {
    match member.nick {
        Some(nick) => nick@ + " ("@ + member.name@ + ")"@,
        None => member.name@,
    }
}

/// The mention of a channel.
pub open spec fn channel_mention(channel: ChannelId) -> Seq<char> {
    "<#"@ + decimal(channel.0 as nat) + ">"@
}

/// The phrase that tells an action.
pub open spec fn action_phrase(action: Action) -> Seq<char> {
    match action {
        Action::Join { into } => "joined into "@ + channel_mention(into),
        Action::Leave { from } => "leaved from "@ + channel_mention(from),
        Action::Move { from, into } => "moved from "@ + channel_mention(from) + " into "@
            + channel_mention(into),
    }
}

/// The notification line: who did what, and when, as a relative time stamp.
pub open spec fn notification(name: Seq<char>, action: Action, timestamp: u64) -> Seq<char> {
    name + " "@ + action_phrase(action) + " at <t:"@ + decimal(timestamp as nat) + ":R>"@
}

impl Member {
    /// The name this member is shown under.
    pub fn display_name(&self) -> (name: String)
        ensures
            name@ == display_name(*self),
    {
        match &self.nick {
            Some(nick) => {
                let mut name = nick.clone();
                name.append(" (");
                name.append(self.name.as_str());
                name.append(")");
                name
            },
            None => self.name.clone(),
        }
    }
}

/// Appends the mention of `channel` to `out`.
fn push_mention(out: &mut String, channel: ChannelId)
    ensures
        final(out)@ == old(out)@ + channel_mention(channel),
{
    out.append("<#");
    push_decimal(out, channel.0);
    out.append(">");
    assert(out@ =~= old(out)@ + channel_mention(channel));
}

/// Appends the phrase that tells `action` to `out`.
fn push_action(out: &mut String, action: &Action)
    ensures
        final(out)@ == old(out)@ + action_phrase(*action),
{
    match action {
        Action::Join { into } => {
            out.append("joined into ");
            push_mention(out, *into);
        },
        Action::Leave { from } => {
            out.append("leaved from ");
            push_mention(out, *from);
        },
        Action::Move { from, into } => {
            out.append("moved from ");
            push_mention(out, *from);
            out.append(" into ");
            push_mention(out, *into);
        },
    }
    assert(out@ =~= old(out)@ + action_phrase(*action));
}

/// Renders the notification that `name` did `action` at `timestamp`, a Unix
/// time in seconds.
pub fn format_notification(name: &str, action: &Action, timestamp: u64) -> (line: String)
    ensures
        line@ == notification(name@, *action, timestamp),
{
    let mut line = String::from_str(name);
    line.append(" ");
    push_action(&mut line, action);
    line.append(" at <t:");
    push_decimal(&mut line, timestamp);
    line.append(":R>");
    assert(line@ =~= notification(name@, *action, timestamp));
    line
}

} // verus!
