//! The dispatcher: from one voice-state event to the messages to post.

use vstd::prelude::*;
use vstd::string::*;
use crate::classify::{classify, guess_action};
use crate::model::{
    Action, ChannelId, ClassificationError, GuildId, Member, PathError, VoiceState,
};
use crate::notify::{display_name, format_notification, notification};
use crate::record::{format_record, record};
use crate::text::{fence, fenced};

verus! {

/// Where the two kinds of message go.
#[derive(Clone, Copy, Debug, PartialEq, Eq, Structural)]
pub struct Handler {
    /// The channel that receives the records.
    pub record_channel_id: ChannelId,
    /// The channel that receives the notifications.
    pub notify_channel_id: ChannelId,
}

/// A message to post: its destination and its text.
#[derive(Clone, Debug)]
pub struct Message {
    pub channel_id: ChannelId,
    pub content: String,
}

/// The mathematical view of a message.
pub struct MessageView {
    pub channel_id: ChannelId,
    pub content: Seq<char>,
}

impl View for Message {
    type V = MessageView;

    open spec fn view(&self) -> MessageView {
        MessageView { channel_id: self.channel_id, content: self.content@ }
    }
}

/// What to do about an event that reports an action: the two messages, each
/// written or failed on its own.
#[derive(Debug)]
pub struct Dispatch {
    pub action: Action,
    pub record: Result<Message, PathError>,
    pub notify: Result<Message, PathError>,
}

/// The mathematical view of a dispatch.
pub struct DispatchView {
    pub action: Action,
    pub record: Result<MessageView, PathError>,
    pub notify: Result<MessageView, PathError>,
}

/// The view of the outcome of writing one message.
pub open spec fn path_view(outcome: Result<Message, PathError>) -> Result<MessageView, PathError> {
    match outcome {
        Ok(message) => Ok(message@),
        Err(e) => Err(e),
    }
}

impl View for Dispatch {
    type V = DispatchView;

    open spec fn view(&self) -> DispatchView {
        DispatchView {
            action: self.action,
            record: path_view(self.record),
            notify: path_view(self.notify),
        }
    }
}

/// The view of the outcome of handling one event.
pub open spec fn outcome_view(outcome: Result<Option<Dispatch>, ClassificationError>) -> Result<
    Option<DispatchView>,
    ClassificationError,
> {
    match outcome {
        Ok(Some(dispatch)) => Ok(Some(dispatch@)),
        Ok(None) => Ok(None),
        Err(e) => Err(e),
    }
}

impl Handler {
    /// The record message for `current`: the fenced record, bound for the
    /// record channel, owed exactly where the state names a guild.
    pub open spec fn record_message(self, current: VoiceState, timestamp: u64) -> Result<
        MessageView,
        PathError,
    > {
        match record(
            timestamp,
            current.guild_id,
            current.user_id,
            current.session_id@,
            current.channel_id,
        ) {
            Ok(text) => Ok(
                MessageView { channel_id: self.record_channel_id, content: fenced(text) },
            ),
            Err(e) => Err(e),
        }
    }

    /// The notification message for `action`: the notification line under the
    /// member's display name, bound for the notification channel, owed exactly
    /// where the state carries a member.
    pub open spec fn notify_message(
        self,
        current: VoiceState,
        timestamp: u64,
        action: Action,
    ) -> Result<MessageView, PathError> {
        match current.member {
            Some(member) => Ok(
                MessageView {
                    channel_id: self.notify_channel_id,
                    content: notification(display_name(member), action, timestamp),
                },
            ),
            None => Err(PathError::MissingMember),
        }
    }

    /// What an event calls for: nothing where the pair is unchanged, an error
    /// where it cannot be classified, and otherwise both messages for the
    /// action, each judged on its own.
    pub open spec fn plan(
        self,
        previous: Option<VoiceState>,
        current: VoiceState,
        timestamp: u64,
    ) -> Result<Option<DispatchView>, ClassificationError> {
        match classify(previous, current) {
            Ok(Some(action)) => Ok(
                Some(
                    DispatchView {
                        action,
                        record: self.record_message(current, timestamp),
                        notify: self.notify_message(current, timestamp, action),
                    },
                ),
            ),
            Ok(None) => Ok(None),
            Err(e) => Err(e),
        }
    }

    /// Writes the record message for the voice state `current`, observed at
    /// `timestamp`.
    pub fn handle_as_record(&self, current: &VoiceState, timestamp: u64) -> (outcome: Result<
        Message,
        PathError,
    >)
        ensures
            path_view(outcome) == self.record_message(*current, timestamp),
    {
        match format_record(
            timestamp,
            current.guild_id,
            current.user_id,
            current.session_id.as_str(),
            current.channel_id,
        ) {
            Ok(text) => Ok(
                Message { channel_id: self.record_channel_id, content: fence(text.as_str()) },
            ),
            Err(e) => Err(e),
        }
    }

    /// Writes the notification message that tells `action` of the member in
    /// `current`, observed at `timestamp`.
    pub fn handle_as_notify(&self, current: &VoiceState, timestamp: u64, action: &Action) -> (outcome:
        Result<Message, PathError>)
        ensures
            path_view(outcome) == self.notify_message(*current, timestamp, *action),
    {
        match &current.member {
            Some(member) => {
                let name = member.display_name();
                Ok(
                    Message {
                        channel_id: self.notify_channel_id,
                        content: format_notification(name.as_str(), action, timestamp),
                    },
                )
            },
            None => Err(PathError::MissingMember),
        }
    }

    /// Handles one voice-state event, received at `timestamp`: classifies the
    /// pair and, where it reports an action, writes both messages. A failure
    /// to write one of them leaves the other as it is.
    pub fn voice_state_update(
        &self,
        previous: &Option<VoiceState>,
        current: &VoiceState,
        timestamp: u64,
    ) -> (outcome: Result<Option<Dispatch>, ClassificationError>)
        ensures
            outcome_view(outcome) == self.plan(*previous, *current, timestamp),
    {
        match guess_action(previous, current) {
            Ok(Some(action)) => {
                let record = self.handle_as_record(current, timestamp);
                let notify = self.handle_as_notify(current, timestamp, &action);
                Ok(Some(Dispatch { action, record, notify }))
            },
            Ok(None) => Ok(None),
            Err(e) => Err(e),
        }
    }
}

/// The two messages of an event are judged apart: without a guild the record
/// fails, and the notification is what it would be with one.
pub proof fn lemma_record_failure_spares_notify(
    handler: Handler,
    previous: Option<VoiceState>,
    current: VoiceState,
    timestamp: u64,
    guild: Option<GuildId>,
)
    requires
        current.guild_id is None,
        classify(previous, current) matches Ok(Some(_)),
    ensures
        ({
            let with_guild = VoiceState { guild_id: guild, ..current };
            &&& handler.plan(previous, current, timestamp) matches Ok(Some(dispatch))
            &&& dispatch.record == Err::<MessageView, PathError>(PathError::MissingGuildContext)
            &&& handler.plan(previous, with_guild, timestamp) matches Ok(Some(other))
            &&& other.notify == dispatch.notify
        }),
{
}

/// Without a member the notification fails, and the record is what it would
/// be with one.
pub proof fn lemma_notify_failure_spares_record(
    handler: Handler,
    previous: Option<VoiceState>,
    current: VoiceState,
    timestamp: u64,
    member: Option<Member>,
)
    requires
        current.member is None,
        classify(previous, current) matches Ok(Some(_)),
    ensures
        ({
            let with_member = VoiceState { member, ..current };
            &&& handler.plan(previous, current, timestamp) matches Ok(Some(dispatch))
            &&& dispatch.notify == Err::<MessageView, PathError>(PathError::MissingMember)
            &&& handler.plan(previous, with_member, timestamp) matches Ok(Some(other))
            &&& other.record == dispatch.record
        }),
{
}

/// An event posts nothing unless it reports an action: an unchanged pair and
/// a pair that cannot be classified come with no message at all.
pub proof fn lemma_no_action_no_message(
    handler: Handler,
    previous: Option<VoiceState>,
    current: VoiceState,
    timestamp: u64,
)
    ensures
        handler.plan(previous, current, timestamp) matches Ok(Some(dispatch)) <==> classify(
            previous,
            current,
        ) matches Ok(Some(_)),
        handler.plan(previous, current, timestamp) matches Ok(Some(dispatch)) ==> classify(
            previous,
            current,
        ) == Ok::<Option<Action>, ClassificationError>(Some(dispatch.action)),
{
}

} // verus!
