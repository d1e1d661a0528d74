//! The values the logic works on: identifiers, voice-state snapshots, actions.

use vstd::prelude::*;

verus! {

/// Identifier of a channel.
#[derive(Clone, Copy, Debug, PartialEq, Eq, Structural)]
pub struct ChannelId(pub u64);

/// Identifier of a guild.
#[derive(Clone, Copy, Debug, PartialEq, Eq, Structural)]
pub struct GuildId(pub u64);

/// Identifier of a user.
#[derive(Clone, Copy, Debug, PartialEq, Eq, Structural)]
pub struct UserId(pub u64);

/// What a notification needs to know of the guild member behind a voice state.
#[derive(Clone, Debug)]
pub struct Member {
    /// The nickname the member carries in the guild, if one is set.
    pub nick: Option<String>,
    /// The account's user name.
    pub name: String,
}

/// A member's voice-channel membership at one instant.
#[derive(Clone, Debug)]
pub struct VoiceState {
    /// The channel the member occupies, if any.
    pub channel_id: Option<ChannelId>,
    /// Identifies one continuous voice connection.
    pub session_id: String,
    /// The guild the state belongs to, where the gateway supplied it.
    pub guild_id: Option<GuildId>,
    /// The user the state belongs to.
    pub user_id: UserId,
    /// The guild member, where the gateway supplied it.
    pub member: Option<Member>,
}

/// What a transition between two voice states means.
#[derive(Clone, Copy, Debug, PartialEq, Eq, Structural)]
pub enum Action {
    Join { into: ChannelId },
    Leave { from: ChannelId },
    Move { from: ChannelId, into: ChannelId },
}

/// Why a pair of voice states could not be classified.
#[derive(Clone, Copy, Debug, PartialEq, Eq, Structural)]
pub enum ClassificationError {
    /// The pair has a shape no transition produces: a known earlier state
    /// without a channel, or no earlier state and no channel now.
    /// `previous_channel` is `None` where no earlier state was known.
    UnexpectedPattern {
        previous_channel: Option<Option<ChannelId>>,
        current_channel: Option<ChannelId>,
    },
}

/// Why one of the two messages of an event cannot be written.
#[derive(Clone, Copy, Debug, PartialEq, Eq, Structural)]
pub enum PathError {
    /// The voice state names no guild, and a record is scoped to one.
    MissingGuildContext,
    /// The voice state carries no member, so there is no name to show.
    MissingMember,
}

} // verus!
