use bob::errors::ErrorKind;
use bob::model::{ChannelId, GuildId, VoiceStateInfo};
use bob::reaper::{
    get_left_channel_id, start, step, ReaperAction, ReaperEvent, ReaperOutcome, ReaperState,
    DEFAULT_DELETION_SECONDS,
};

const G: GuildId = GuildId(100);
const V: ChannelId = ChannelId(200);
const C: ChannelId = ChannelId(300);

fn leave_event() -> (Option<VoiceStateInfo>, VoiceStateInfo) {
    (Some(VoiceStateInfo { channel_id: Some(V) }), VoiceStateInfo { channel_id: None })
}

/// Drive a run from a voice-state change to its end, collecting every
/// action the machine asks for.
fn drive(events: &[ReaperEvent]) -> (Vec<ReaperAction>, ReaperState) {
    let (old_vs, new_vs) = leave_event();
    let (mut state, mut action) = start(G, &old_vs, &new_vs);
    let mut actions = vec![action];
    for e in events {
        let (next, a) = step(state, *e);
        state = next;
        action = a;
        actions.push(action);
        if matches!(action, ReaperAction::Finish { .. }) {
            break;
        }
    }
    (actions, state)
}

#[test]
fn leaving_a_channel_is_detected() {
    let old_vs = Some(VoiceStateInfo { channel_id: Some(V) });
    assert_eq!(
        get_left_channel_id(&old_vs, &VoiceStateInfo { channel_id: None }),
        Some(V)
    );
    assert_eq!(
        get_left_channel_id(&old_vs, &VoiceStateInfo { channel_id: Some(C) }),
        Some(V)
    );
}

#[test]
fn staying_joining_or_unknown_is_no_leave() {
    let old_vs = Some(VoiceStateInfo { channel_id: Some(V) });
    // Same channel in both states: not a leave.
    assert_eq!(get_left_channel_id(&old_vs, &VoiceStateInfo { channel_id: Some(V) }), None);
    // No old state at all: the user just joined.
    assert_eq!(get_left_channel_id(&None, &VoiceStateInfo { channel_id: Some(V) }), None);
    // Old state without a channel.
    let old_no_channel = Some(VoiceStateInfo { channel_id: None });
    assert_eq!(get_left_channel_id(&old_no_channel, &VoiceStateInfo { channel_id: None }), None);
}

#[test]
fn a_non_leave_finishes_immediately() {
    let old_vs = Some(VoiceStateInfo { channel_id: Some(V) });
    let (state, action) = start(G, &old_vs, &VoiceStateInfo { channel_id: Some(V) });
    assert_eq!(state, ReaperState::Done { outcome: ReaperOutcome::NotALeave });
    assert_eq!(action, ReaperAction::Finish { outcome: ReaperOutcome::NotALeave });
}

#[test]
fn unmanaged_channel_is_never_announced_or_deleted() {
    let (actions, state) = drive(&[ReaperEvent::MarkerFetched { created_by_bot: false }]);
    assert_eq!(state, ReaperState::Done { outcome: ReaperOutcome::NotManaged });
    for a in &actions {
        assert!(!matches!(a, ReaperAction::Announce { .. }));
        assert!(!matches!(a, ReaperAction::Delete { .. }));
        assert!(!matches!(a, ReaperAction::EditAnnouncement { .. }));
        assert!(!matches!(a, ReaperAction::Sleep { .. }));
    }
}

#[test]
fn occupied_channel_is_left_alone_without_announcement() {
    let (actions, state) = drive(&[
        ReaperEvent::MarkerFetched { created_by_bot: true },
        ReaperEvent::MembersCounted { count: 3 },
    ]);
    assert_eq!(state, ReaperState::Done { outcome: ReaperOutcome::StillOccupied });
    for a in &actions {
        assert!(!matches!(a, ReaperAction::Announce { .. }));
        assert!(!matches!(a, ReaperAction::Delete { .. }));
    }
}

#[test]
fn rejoin_during_grace_period_aborts_without_delete_or_second_edit() {
    let (actions, state) = drive(&[
        ReaperEvent::MarkerFetched { created_by_bot: true },
        ReaperEvent::MembersCounted { count: 0 },
        ReaperEvent::ConfigFetched {
            command_channel: Some(C),
            deletion_seconds: Some(30),
            now: 1_000,
        },
        ReaperEvent::AnnouncementSent,
        ReaperEvent::SleepFinished,
        ReaperEvent::MembersCounted { count: 1 },
    ]);
    assert_eq!(state, ReaperState::Done { outcome: ReaperOutcome::Reoccupied });
    // Exactly one announcement was made, but the channel is neither
    // deleted nor is the announcement edited again.
    let announces = actions
        .iter()
        .filter(|a| matches!(a, ReaperAction::Announce { .. }))
        .count();
    assert_eq!(announces, 1);
    for a in &actions {
        assert!(!matches!(a, ReaperAction::Delete { .. }));
        assert!(!matches!(a, ReaperAction::EditAnnouncement { .. }));
    }
}

#[test]
fn empty_at_both_checks_is_deleted_once_then_edited_once() {
    let (actions, state) = drive(&[
        ReaperEvent::MarkerFetched { created_by_bot: true },
        ReaperEvent::MembersCounted { count: 0 },
        ReaperEvent::ConfigFetched {
            command_channel: Some(C),
            deletion_seconds: Some(30),
            now: 1_000,
        },
        ReaperEvent::AnnouncementSent,
        ReaperEvent::SleepFinished,
        ReaperEvent::MembersCounted { count: 0 },
        ReaperEvent::ChannelDeleted,
        ReaperEvent::AnnouncementEdited,
    ]);
    assert_eq!(state, ReaperState::Done { outcome: ReaperOutcome::Deleted });
    let deletes: Vec<usize> = actions
        .iter()
        .enumerate()
        .filter(|(_, a)| matches!(a, ReaperAction::Delete { .. }))
        .map(|(i, _)| i)
        .collect();
    let edits: Vec<usize> = actions
        .iter()
        .enumerate()
        .filter(|(_, a)| matches!(a, ReaperAction::EditAnnouncement { .. }))
        .map(|(i, _)| i)
        .collect();
    // Exactly one delete and exactly one edit, in that order.
    assert_eq!(deletes.len(), 1);
    assert_eq!(edits.len(), 1);
    assert!(deletes[0] < edits[0]);
    assert_eq!(actions[deletes[0]], ReaperAction::Delete { channel: V });
    assert_eq!(actions[edits[0]], ReaperAction::EditAnnouncement { channel: V });
}

#[test]
fn five_second_grace_period_scenario() {
    // Guild G has a deletion time of 5 seconds and command channel C.
    // Channel V, marked created-by-bot, becomes empty.
    let now: u64 = 1_700_000_000;
    let (actions, state) = drive(&[
        ReaperEvent::MarkerFetched { created_by_bot: true },
        ReaperEvent::MembersCounted { count: 0 },
        ReaperEvent::ConfigFetched {
            command_channel: Some(C),
            deletion_seconds: Some(5),
            now,
        },
        ReaperEvent::AnnouncementSent,
        ReaperEvent::SleepFinished,
        ReaperEvent::MembersCounted { count: 0 },
        ReaperEvent::ChannelDeleted,
        ReaperEvent::AnnouncementEdited,
    ]);
    assert_eq!(
        actions,
        vec![
            ReaperAction::FetchMarker { guild: G, channel: V },
            ReaperAction::FetchMembers { channel: V },
            ReaperAction::FetchConfig { guild: G },
            // The message goes to C and announces a deletion in the future.
            ReaperAction::Announce { command_channel: C, channel: V, delete_at: now + 5 },
            ReaperAction::Sleep { seconds: 5 },
            ReaperAction::FetchMembers { channel: V },
            ReaperAction::Delete { channel: V },
            ReaperAction::EditAnnouncement { channel: V },
            ReaperAction::Finish { outcome: ReaperOutcome::Deleted },
        ]
    );
    assert_eq!(state, ReaperState::Done { outcome: ReaperOutcome::Deleted });
}

#[test]
fn unset_deletion_time_defaults_to_sixty_seconds() {
    let (actions, _) = drive(&[
        ReaperEvent::MarkerFetched { created_by_bot: true },
        ReaperEvent::MembersCounted { count: 0 },
        ReaperEvent::ConfigFetched { command_channel: Some(C), deletion_seconds: None, now: 50 },
        ReaperEvent::AnnouncementSent,
    ]);
    assert_eq!(DEFAULT_DELETION_SECONDS, 60);
    assert!(actions.contains(&ReaperAction::Announce {
        command_channel: C,
        channel: V,
        delete_at: 50 + 60,
    }));
    assert!(actions.contains(&ReaperAction::Sleep { seconds: 60 }));
}

#[test]
fn missing_command_channel_aborts_the_run() {
    let (actions, state) = drive(&[
        ReaperEvent::MarkerFetched { created_by_bot: true },
        ReaperEvent::MembersCounted { count: 0 },
        ReaperEvent::ConfigFetched { command_channel: None, deletion_seconds: Some(5), now: 0 },
    ]);
    assert_eq!(state, ReaperState::Done { outcome: ReaperOutcome::NoCommandChannel });
    for a in &actions {
        assert!(!matches!(a, ReaperAction::Announce { .. }));
        assert!(!matches!(a, ReaperAction::Delete { .. }));
    }
}

#[test]
fn vanished_channel_is_a_benign_abort() {
    let (actions, state) = drive(&[
        ReaperEvent::MarkerFetched { created_by_bot: true },
        ReaperEvent::MembersCounted { count: 0 },
        ReaperEvent::ConfigFetched { command_channel: Some(C), deletion_seconds: Some(5), now: 0 },
        ReaperEvent::AnnouncementSent,
        ReaperEvent::SleepFinished,
        ReaperEvent::MembersCounted { count: 0 },
        ReaperEvent::ChannelVanished,
    ]);
    assert_eq!(state, ReaperState::Done { outcome: ReaperOutcome::AlreadyGone });
    // The announcement is not edited: the concurrent winner edits its own.
    for a in &actions {
        assert!(!matches!(a, ReaperAction::EditAnnouncement { .. }));
    }
}

#[test]
fn failed_store_read_is_an_external_failure() {
    let (_, state) = drive(&[ReaperEvent::CallFailed]);
    assert_eq!(
        state,
        ReaperState::Done { outcome: ReaperOutcome::Failed { kind: ErrorKind::External } }
    );
}

#[test]
fn failed_announcement_is_an_admin_failure() {
    let (_, state) = drive(&[
        ReaperEvent::MarkerFetched { created_by_bot: true },
        ReaperEvent::MembersCounted { count: 0 },
        ReaperEvent::ConfigFetched { command_channel: Some(C), deletion_seconds: Some(5), now: 0 },
        ReaperEvent::CallFailed,
    ]);
    assert_eq!(
        state,
        ReaperState::Done { outcome: ReaperOutcome::Failed { kind: ErrorKind::Admin } }
    );
}
