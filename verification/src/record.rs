//! The record: a fixed-format, machine-parsable account of a voice state.

use vstd::prelude::*;
use vstd::string::*;
use crate::model::{ChannelId, GuildId, PathError, UserId};
use crate::text::{decimal, push_decimal};

verus! {

/// How the record writes the channel: its number, or a placeholder where the
/// member is in none.
pub open spec fn channel_field(channel: Option<ChannelId>) -> Seq<char> {
    match channel {
        Some(c) => decimal(c.0 as nat),
        None => "{empty}"@,
    }
}

/// The lines of the record: one key per line, in a fixed order, under schema
/// version 0.
pub open spec fn record_lines(
    timestamp: u64,
    guild: GuildId,
    user: UserId,
    session: Seq<char>,
    channel: Option<ChannelId>,
) -> Seq<char> {
    "v: 0\nt: "@ + decimal(timestamp as nat) + "\ng: "@ + decimal(guild.0 as nat) + "\nu: "@
        + decimal(user.0 as nat) + "\ns: "@ + session + "\nc: "@ + channel_field(channel)
}

/// The record of a voice state: its lines where a guild is named, and an
/// error where none is, for a record is scoped to a guild.
pub open spec fn record(
    timestamp: u64,
    guild: Option<GuildId>,
    user: UserId,
    session: Seq<char>,
    channel: Option<ChannelId>,
) -> Result<Seq<char>, PathError> {
    match guild {
        Some(g) => Ok(record_lines(timestamp, g, user, session, channel)),
        None => Err(PathError::MissingGuildContext),
    }
}

/// The text of a rendered record, or why there is none.
pub open spec fn rendered(outcome: Result<String, PathError>) -> Result<Seq<char>, PathError> {
    match outcome {
        Ok(text) => Ok(text@),
        Err(e) => Err(e),
    }
}

/// Renders the record of a voice state observed at `timestamp`, a Unix time in
/// seconds. Without a guild there is no record.
pub fn format_record(
    timestamp: u64,
    guild: Option<GuildId>,
    user: UserId,
    session: &str,
    channel: Option<ChannelId>,
) -> (outcome: Result<String, PathError>)
    ensures
        rendered(outcome) == record(timestamp, guild, user, session@, channel),
{
    let guild = match guild {
        Some(g) => g,
        None => {
            return Err(PathError::MissingGuildContext);
        },
    };
    let mut text = String::from_str("v: 0\nt: ");
    push_decimal(&mut text, timestamp);
    text.append("\ng: ");
    push_decimal(&mut text, guild.0);
    text.append("\nu: ");
    push_decimal(&mut text, user.0);
    text.append("\ns: ");
    text.append(session);
    text.append("\nc: ");
    match channel {
        Some(c) => push_decimal(&mut text, c.0),
        None => text.append("{empty}"),
    }
    assert(text@ =~= record_lines(timestamp, guild, user, session@, channel));
    Ok(text)
}

} // verus!
