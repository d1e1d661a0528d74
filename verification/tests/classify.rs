use meufchrer::classify::guess_action;
use meufchrer::model::{
    Action, ChannelId, ClassificationError, GuildId, Member, UserId, VoiceState,
};

fn state(channel: Option<u64>, session: &str) -> VoiceState {
    VoiceState {
        channel_id: channel.map(ChannelId),
        session_id: session.to_string(),
        guild_id: Some(GuildId(7)),
        user_id: UserId(9),
        member: None,
    }
}

#[test]
fn join_without_previous_state() {
    let current = state(Some(1), "s1");
    assert_eq!(
        guess_action(&None, &current),
        Ok(Some(Action::Join { into: ChannelId(1) }))
    );
}

#[test]
fn join_for_any_session() {
    for session in ["", "s1", "another session"] {
        let current = state(Some(u64::MAX), session);
        assert_eq!(
            guess_action(&None, &current),
            Ok(Some(Action::Join { into: ChannelId(u64::MAX) }))
        );
    }
}

#[test]
fn leave_with_same_session() {
    let previous = Some(state(Some(1), "s1"));
    let current = state(None, "s1");
    assert_eq!(
        guess_action(&previous, &current),
        Ok(Some(Action::Leave { from: ChannelId(1) }))
    );
}

#[test]
fn leave_with_other_session() {
    let previous = Some(state(Some(1), "s1"));
    let current = state(None, "s2");
    assert_eq!(
        guess_action(&previous, &current),
        Ok(Some(Action::Leave { from: ChannelId(1) }))
    );
}

#[test]
fn move_between_channels_in_one_session() {
    let previous = Some(state(Some(1), "s1"));
    let current = state(Some(2), "s1");
    assert_eq!(
        guess_action(&previous, &current),
        Ok(Some(Action::Move { from: ChannelId(1), into: ChannelId(2) }))
    );
}

#[test]
fn move_between_channels_across_sessions() {
    let previous = Some(state(Some(1), "s1"));
    let current = state(Some(2), "s2");
    assert_eq!(
        guess_action(&previous, &current),
        Ok(Some(Action::Move { from: ChannelId(1), into: ChannelId(2) }))
    );
}

#[test]
fn same_channel_in_a_new_session_is_a_move() {
    let previous = Some(state(Some(1), "s1"));
    let current = state(Some(1), "s2");
    assert_eq!(
        guess_action(&previous, &current),
        Ok(Some(Action::Move { from: ChannelId(1), into: ChannelId(1) }))
    );
}

#[test]
fn unchanged_pair_reports_nothing() {
    let previous = Some(state(Some(1), "s1"));
    let current = state(Some(1), "s1");
    assert_eq!(guess_action(&previous, &current), Ok(None));
}

#[test]
fn unchanged_pair_ignores_other_fields() {
    let previous = Some(VoiceState {
        channel_id: Some(ChannelId(1)),
        session_id: "s1".to_string(),
        guild_id: None,
        user_id: UserId(1),
        member: None,
    });
    let current = VoiceState {
        channel_id: Some(ChannelId(1)),
        session_id: "s1".to_string(),
        guild_id: Some(GuildId(2)),
        user_id: UserId(3),
        member: Some(Member { nick: Some("nick".to_string()), name: "name".to_string() }),
    };
    assert_eq!(guess_action(&previous, &current), Ok(None));
}

#[test]
fn unchanged_pair_without_channel_reports_nothing() {
    let previous = Some(state(None, "s1"));
    let current = state(None, "s1");
    assert_eq!(guess_action(&previous, &current), Ok(None));
}

#[test]
fn previous_without_channel_is_an_error() {
    let previous = Some(state(None, "s1"));
    let current = state(Some(2), "s1");
    assert_eq!(
        guess_action(&previous, &current),
        Err(ClassificationError::UnexpectedPattern {
            previous_channel: Some(None),
            current_channel: Some(ChannelId(2)),
        })
    );
}

#[test]
fn previous_without_channel_in_other_session_is_an_error() {
    let previous = Some(state(None, "s1"));
    let with_channel = state(Some(2), "s2");
    assert_eq!(
        guess_action(&previous, &with_channel),
        Err(ClassificationError::UnexpectedPattern {
            previous_channel: Some(None),
            current_channel: Some(ChannelId(2)),
        })
    );
    let without_channel = state(None, "s2");
    assert_eq!(
        guess_action(&previous, &without_channel),
        Err(ClassificationError::UnexpectedPattern {
            previous_channel: Some(None),
            current_channel: None,
        })
    );
}

#[test]
fn nothing_before_and_no_channel_now_is_an_error() {
    let current = state(None, "s1");
    assert_eq!(
        guess_action(&None, &current),
        Err(ClassificationError::UnexpectedPattern {
            previous_channel: None,
            current_channel: None,
        })
    );
}

#[test]
fn classification_reads_only_session_and_channel() {
    let bare = state(Some(4), "s");
    let full = VoiceState {
        channel_id: Some(ChannelId(4)),
        session_id: "s".to_string(),
        guild_id: None,
        user_id: UserId(123),
        member: Some(Member { nick: None, name: "someone".to_string() }),
    };
    let previous = Some(state(Some(3), "s"));
    assert_eq!(guess_action(&previous, &bare), guess_action(&previous, &full));
    assert_eq!(guess_action(&None, &bare), guess_action(&None, &full));
}
