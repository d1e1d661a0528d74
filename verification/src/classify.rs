//! The transition classifier: from a pair of voice states to an action.

use vstd::prelude::*;
use crate::model::{Action, ChannelId, ClassificationError, VoiceState};

verus! {

/// Whether the pair carries no change worth reporting: an earlier state is
/// known and both its session and its channel are those of the current one.
pub open spec fn unchanged(previous: Option<VoiceState>, current: VoiceState) -> bool {
    previous matches Some(p) && p.session_id@ == current.session_id@ && p.channel_id
        == current.channel_id
}

/// The channel of the earlier state: `None` where no earlier state is known,
/// `Some(None)` where one is known and had no channel.
pub open spec fn previous_channel(previous: Option<VoiceState>) -> Option<Option<ChannelId>> {
    match previous {
        Some(p) => Some(p.channel_id),
        None => None,
    }
}

/// What a pair of channels means once unchanged pairs are set aside.
pub open spec fn classify_channels(
    previous: Option<Option<ChannelId>>,
    current: Option<ChannelId>,
) -> Result<Action, ClassificationError> {
    match (previous, current) {
        (None, Some(into)) => Ok(Action::Join { into }),
        (Some(Some(from)), Some(into)) => Ok(Action::Move { from, into }),
        (Some(Some(from)), None) => Ok(Action::Leave { from }),
        (Some(None), _) | (None, None) => Err(
            ClassificationError::UnexpectedPattern {
                previous_channel: previous,
                current_channel: current,
            },
        ),
    }
}

/// The classification of a pair of voice states.
pub open spec fn classify(previous: Option<VoiceState>, current: VoiceState) -> Result<
    Option<Action>,
    ClassificationError,
> {
    if unchanged(previous, current) {
        Ok(None)
    } else {
        match classify_channels(previous_channel(previous), current.channel_id) {
            Ok(action) => Ok(Some(action)),
            Err(e) => Err(e),
        }
    }
}

/// A member without earlier state who is in a channel has joined it.
pub proof fn lemma_join(previous: Option<VoiceState>, current: VoiceState, c: ChannelId)
    requires
        previous is None,
        current.channel_id == Some(c),
    ensures
        classify(previous, current) == Ok::<Option<Action>, ClassificationError>(
            Some(Action::Join { into: c }),
        ),
{
}

/// A member who was in a channel and is in none has left it, whatever the
/// sessions of the two states.
pub proof fn lemma_leave(previous: Option<VoiceState>, current: VoiceState, c1: ChannelId)
    requires
        previous matches Some(p) && p.channel_id == Some(c1),
        current.channel_id is None,
    ensures
        classify(previous, current) == Ok::<Option<Action>, ClassificationError>(
            Some(Action::Leave { from: c1 }),
        ),
{
}

/// A member who was in a channel and is in one has moved, unless session and
/// channel are both what they were.
pub proof fn lemma_move(
    previous: Option<VoiceState>,
    current: VoiceState,
    c1: ChannelId,
    c2: ChannelId,
)
    requires
        previous matches Some(p) && p.channel_id == Some(c1) && !(p.session_id@
            == current.session_id@ && c1 == c2),
        current.channel_id == Some(c2),
    ensures
        classify(previous, current) == Ok::<Option<Action>, ClassificationError>(
            Some(Action::Move { from: c1, into: c2 }),
        ),
{
}

/// A pair with the same session and the same channel reports nothing,
/// whatever else the two states hold.
pub proof fn lemma_unchanged_is_silent(previous: Option<VoiceState>, current: VoiceState)
    requires
        previous matches Some(p) && p.session_id@ == current.session_id@ && p.channel_id
            == current.channel_id,
    ensures
        classify(previous, current) == Ok::<Option<Action>, ClassificationError>(None),
{
}

/// An earlier state without a channel is an error, unless the pair is
/// unchanged: the same session, and no channel now either.
pub proof fn lemma_previous_without_channel(previous: Option<VoiceState>, current: VoiceState)
    requires
        previous matches Some(p) && p.channel_id is None && !(p.session_id@
            == current.session_id@ && current.channel_id is None),
    ensures
        classify(previous, current) == Err::<Option<Action>, ClassificationError>(
            ClassificationError::UnexpectedPattern {
                previous_channel: Some(None),
                current_channel: current.channel_id,
            },
        ),
{
}

/// No earlier state and no channel now is an error.
pub proof fn lemma_nothing_to_report(previous: Option<VoiceState>, current: VoiceState)
    requires
        previous is None,
        current.channel_id is None,
    ensures
        classify(previous, current) == Err::<Option<Action>, ClassificationError>(
            ClassificationError::UnexpectedPattern { previous_channel: None, current_channel: None },
        ),
{
}

/// The classification reads nothing of the two states but their sessions and
/// their channels.
pub proof fn lemma_reads_session_and_channel(
    previous: Option<VoiceState>,
    current: VoiceState,
    other_previous: Option<VoiceState>,
    other_current: VoiceState,
)
    requires
        previous is Some <==> other_previous is Some,
        previous matches Some(p) ==> p.session_id@ == other_previous->0.session_id@
            && p.channel_id == other_previous->0.channel_id,
        current.session_id@ == other_current.session_id@,
        current.channel_id == other_current.channel_id,
    ensures
        classify(previous, current) == classify(other_previous, other_current),
{
}

/// A move from a channel into the same channel is reported only where the
/// session has changed.
pub proof fn lemma_move_in_place(previous: Option<VoiceState>, current: VoiceState, c: ChannelId)
    requires
        classify(previous, current) == Ok::<Option<Action>, ClassificationError>(
            Some(Action::Move { from: c, into: c }),
        ),
    ensures
        previous matches Some(p) && p.session_id@ != current.session_id@,
{
}

/// Infers what happened between the voice state `previous`, absent where the
/// member had none known, and the voice state `current` that an event carries.
///
/// A pair with the same session and the same channel is no transition and gives
/// `Ok(None)`. Otherwise a member without earlier state who is in a channel has
/// joined it, a member who was in a channel has moved if in a channel now and
/// left if in none, and every other shape is reported as an error.
pub fn guess_action(previous: &Option<VoiceState>, current: &VoiceState) -> (result: Result<
    Option<Action>,
    ClassificationError,
>)
    ensures
        result == classify(*previous, *current),
{
    let now = current.channel_id;
    match previous {
        Some(p) => {
            if p.session_id == current.session_id && same_channel(p.channel_id, now) {
                return Ok(None);
            }
            match (p.channel_id, now) {
                (Some(from), Some(into)) => Ok(Some(Action::Move { from, into })),
                (Some(from), None) => Ok(Some(Action::Leave { from })),
                (None, _) => Err(
                    ClassificationError::UnexpectedPattern {
                        previous_channel: Some(None),
                        current_channel: now,
                    },
                ),
            }
        },
        None => match now {
            Some(into) => Ok(Some(Action::Join { into })),
            None => Err(
                ClassificationError::UnexpectedPattern {
                    previous_channel: None,
                    current_channel: None,
                },
            ),
        },
    }
}

/// Whether two optional channels are the same.
fn same_channel(a: Option<ChannelId>, b: Option<ChannelId>) -> (same: bool)
    ensures
        same == (a == b),
{
    match (a, b) {
        (Some(x), Some(y)) => x.0 == y.0,
        (None, None) => true,
        _ => false,
    }
}

} // verus!
