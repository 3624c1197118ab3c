//! The empty-channel reaper: a debounced, cancellable deletion pipeline
//! triggered by voice-presence-change events.
//!
//! Each "user left a channel" event spawns one run of this state machine.
//! The machine itself is pure: it consumes [`ReaperEvent`]s describing
//! what the chat platform and the store reported, and emits
//! [`ReaperAction`]s telling the caller what to do next. The caller
//! performs each action (fetch, announce, sleep, delete, edit) and feeds
//! the result back as the next event, until a [`ReaperAction::Finish`].
//!
//! Several runs may be in flight for the same channel; correctness comes
//! from re-validation, not cancellation: every run re-checks emptiness
//! immediately before announcing and immediately before deleting, and a
//! run that finds the channel occupied, unmanaged, or already gone ends as
//! a successful "nothing to do" outcome, never as a failure.

use vstd::prelude::*;
use crate::errors::ErrorKind;
use crate::model::{ChannelId, GuildId, VoiceStateInfo};

verus! {

/// The grace period, in seconds, used when a guild configured none.
pub const DEFAULT_DELETION_SECONDS: u64 = 60;

/// How a reaper run ended.
#[derive(Clone, Copy, Debug, PartialEq, Eq)]
pub enum ReaperOutcome {
    /// The voice-state change was not a leave; nothing to do.
    NotALeave,
    /// The channel was not created by the bot, so it must never be
    /// auto-deleted, regardless of emptiness.
    NotManaged,
    /// Somebody was still inside at the first emptiness check.
    StillOccupied,
    /// Somebody rejoined during the grace period; the stale announcement
    /// is deliberately left as it is.
    Reoccupied,
    /// The channel sat empty through the grace period and was deleted,
    /// and the announcement was edited to say so.
    Deleted,
    /// The channel was already gone when the run tried to delete it;
    /// a concurrent run got there first. Benign.
    AlreadyGone,
    /// The guild has no command channel configured; the reaper refuses to
    /// operate without a place to announce.
    NoCommandChannel,
    /// A platform or store call failed, classified by its cause.
    Failed { kind: ErrorKind },
}

/// What the platform or the store reported back for the pending action.
#[derive(Clone, Copy, Debug, PartialEq, Eq)]
pub enum ReaperEvent {
    /// Whether the created-by-bot marker exists for the channel.
    MarkerFetched { created_by_bot: bool },
    /// How many members are currently inside the channel.
    MembersCounted { count: u64 },
    /// The guild's configuration, and the current time in seconds since
    /// the epoch.
    ConfigFetched { command_channel: Option<ChannelId>, deletion_seconds: Option<u64>, now: u64 },
    /// The countdown announcement was sent; the caller keeps its handle.
    AnnouncementSent,
    /// The grace period elapsed.
    SleepFinished,
    /// The channel was deleted.
    ChannelDeleted,
    /// The delete reported that the channel no longer exists.
    ChannelVanished,
    /// The previously sent announcement was edited.
    AnnouncementEdited,
    /// The pending platform or store call failed.
    CallFailed,
}

/// What the caller must do next.
#[derive(Clone, Copy, Debug, PartialEq, Eq)]
pub enum ReaperAction {
    /// Ask the store whether the channel carries the created-by-bot marker.
    FetchMarker { guild: GuildId, channel: ChannelId },
    /// Ask the platform who is currently inside the channel.
    FetchMembers { channel: ChannelId },
    /// Ask the store for the guild's command channel and deletion time.
    FetchConfig { guild: GuildId },
    /// Send the countdown message to the command channel: the channel will
    /// be deleted at `delete_at` (seconds since the epoch) if still empty.
    Announce { command_channel: ChannelId, channel: ChannelId, delete_at: u64 },
    /// Suspend for the grace period without blocking anything else.
    Sleep { seconds: u64 },
    /// Delete the channel.
    Delete { channel: ChannelId },
    /// Edit the announcement to say the channel was deleted for sitting
    /// empty.
    EditAnnouncement { channel: ChannelId },
    /// The run is over; no further action follows.
    Finish { outcome: ReaperOutcome },
}

/// Where a reaper run stands: which report it is waiting for.
#[derive(Clone, Copy, Debug, PartialEq, Eq)]
pub enum ReaperState {
    AwaitingMarker { guild: GuildId, channel: ChannelId },
    AwaitingFirstCount { guild: GuildId, channel: ChannelId },
    AwaitingConfig { guild: GuildId, channel: ChannelId },
    AwaitingAnnouncement { guild: GuildId, channel: ChannelId, wait: u64 },
    Sleeping { guild: GuildId, channel: ChannelId, wait: u64 },
    AwaitingSecondCount { guild: GuildId, channel: ChannelId },
    AwaitingDeletion { guild: GuildId, channel: ChannelId },
    AwaitingEdit { guild: GuildId, channel: ChannelId },
    Done { outcome: ReaperOutcome },
}

/// The channel a user left, if the voice-state change was a leave: the old
/// state must name a channel, and the new state must name none or a
/// different one.
pub open spec fn spec_left_channel(
    old_state: Option<VoiceStateInfo>,
    new_state: VoiceStateInfo,
) -> Option<ChannelId> {
    match old_state {
        None => None,
        Some(old_vs) => match old_vs.channel_id {
            None => None,
            Some(old_channel) => match new_state.channel_id {
                Some(new_channel) if new_channel == old_channel => None,
                _ => Some(old_channel),
            },
        },
    }
}

/// Given two voice states, determine if a channel was left and return its
/// [`ChannelId`].
pub fn get_left_channel_id(old_state: &Option<VoiceStateInfo>, new_state: &VoiceStateInfo) -> (r:
    Option<ChannelId>)
    ensures
        r == spec_left_channel(*old_state, *new_state),
{
    match old_state {
        None => None,
        Some(old_vs) => match old_vs.channel_id {
            None => None,
            Some(old_channel) => match new_state.channel_id {
                Some(new_channel) if new_channel == old_channel => None,
                _ => Some(old_channel),
            },
        },
    }
}

/// The moment the countdown announcement names: now plus the grace period,
/// clamped to the representable range.
pub open spec fn spec_delete_at(now: u64, wait: u64) -> u64 {
    if now + wait <= u64::MAX {
        (now + wait) as u64
    } else {
        u64::MAX
    }
}

/// How a failure of the call pending in state `s` is classified: reads
/// from the store or the platform are external failures, while failing to
/// announce, delete or edit in a configured guild is an administrative
/// problem. A failure in a state with no pending call means the core's own
/// assumption broke.
pub open spec fn spec_failure_kind(s: ReaperState) -> ErrorKind {
    match s {
        ReaperState::AwaitingMarker { .. } => ErrorKind::External,
        ReaperState::AwaitingFirstCount { .. } => ErrorKind::External,
        ReaperState::AwaitingConfig { .. } => ErrorKind::External,
        ReaperState::AwaitingAnnouncement { .. } => ErrorKind::Admin,
        ReaperState::Sleeping { .. } => ErrorKind::Developer,
        ReaperState::AwaitingSecondCount { .. } => ErrorKind::External,
        ReaperState::AwaitingDeletion { .. } => ErrorKind::Admin,
        ReaperState::AwaitingEdit { .. } => ErrorKind::Admin,
        ReaperState::Done { .. } => ErrorKind::Developer,
    }
}

/// A finished run: the terminal state and its closing action.
pub open spec fn spec_finish(outcome: ReaperOutcome) -> (ReaperState, ReaperAction) {
    (ReaperState::Done { outcome }, ReaperAction::Finish { outcome })
}

/// The transition relation of the reaper: from the current state and the
/// event that answers its pending action, the next state and the next
/// action.
pub open spec fn spec_step(s: ReaperState, e: ReaperEvent) -> (ReaperState, ReaperAction) {
    match s {
        ReaperState::Done { outcome } => spec_finish(outcome),
        _ => match (s, e) {
            (_, ReaperEvent::CallFailed) => spec_finish(ReaperOutcome::Failed {
                kind: spec_failure_kind(s),
            }),
            (
                ReaperState::AwaitingMarker { guild, channel },
                ReaperEvent::MarkerFetched { created_by_bot },
            ) => if created_by_bot {
                (
                    ReaperState::AwaitingFirstCount { guild, channel },
                    ReaperAction::FetchMembers { channel },
                )
            } else {
                spec_finish(ReaperOutcome::NotManaged)
            },
            (
                ReaperState::AwaitingFirstCount { guild, channel },
                ReaperEvent::MembersCounted { count },
            ) => if count == 0 {
                (ReaperState::AwaitingConfig { guild, channel }, ReaperAction::FetchConfig { guild })
            } else {
                spec_finish(ReaperOutcome::StillOccupied)
            },
            (
                ReaperState::AwaitingConfig { guild, channel },
                ReaperEvent::ConfigFetched { command_channel, deletion_seconds, now },
            ) => match command_channel {
                None => spec_finish(ReaperOutcome::NoCommandChannel),
                Some(cc) => {
                    let wait = match deletion_seconds {
                        Some(w) => w,
                        None => DEFAULT_DELETION_SECONDS,
                    };
                    (
                        ReaperState::AwaitingAnnouncement { guild, channel, wait },
                        ReaperAction::Announce {
                            command_channel: cc,
                            channel,
                            delete_at: spec_delete_at(now, wait),
                        },
                    )
                },
            },
            (
                ReaperState::AwaitingAnnouncement { guild, channel, wait },
                ReaperEvent::AnnouncementSent,
            ) => (
                ReaperState::Sleeping { guild, channel, wait },
                ReaperAction::Sleep { seconds: wait },
            ),
            (ReaperState::Sleeping { guild, channel, .. }, ReaperEvent::SleepFinished) => (
                ReaperState::AwaitingSecondCount { guild, channel },
                ReaperAction::FetchMembers { channel },
            ),
            (
                ReaperState::AwaitingSecondCount { guild, channel },
                ReaperEvent::MembersCounted { count },
            ) => if count == 0 {
                (ReaperState::AwaitingDeletion { guild, channel }, ReaperAction::Delete { channel })
            } else {
                spec_finish(ReaperOutcome::Reoccupied)
            },
            (ReaperState::AwaitingDeletion { guild, channel }, ReaperEvent::ChannelDeleted) => (
                ReaperState::AwaitingEdit { guild, channel },
                ReaperAction::EditAnnouncement { channel },
            ),
            (ReaperState::AwaitingDeletion { .. }, ReaperEvent::ChannelVanished) => spec_finish(
                ReaperOutcome::AlreadyGone,
            ),
            (ReaperState::AwaitingEdit { .. }, ReaperEvent::AnnouncementEdited) => spec_finish(
                ReaperOutcome::Deleted,
            ),
            _ => spec_finish(ReaperOutcome::Failed { kind: ErrorKind::Developer }),
        },
    }
}

/// Start a reaper run for one voice-state change: decide whether a channel
/// was left, and if so ask for its created-by-bot marker.
pub open spec fn spec_start(
    guild: GuildId,
    old_state: Option<VoiceStateInfo>,
    new_state: VoiceStateInfo,
) -> (ReaperState, ReaperAction) {
    match spec_left_channel(old_state, new_state) {
        None => spec_finish(ReaperOutcome::NotALeave),
        Some(channel) => (
            ReaperState::AwaitingMarker { guild, channel },
            ReaperAction::FetchMarker { guild, channel },
        ),
    }
}

/// Begin a reaper run from a voice-state change notification.
pub fn start(guild: GuildId, old_state: &Option<VoiceStateInfo>, new_state: &VoiceStateInfo) -> (r:
    (ReaperState, ReaperAction))
    ensures
        r == spec_start(guild, *old_state, *new_state),
{
    match get_left_channel_id(old_state, new_state) {
        None => finish(ReaperOutcome::NotALeave),
        Some(channel) => (
            ReaperState::AwaitingMarker { guild, channel },
            ReaperAction::FetchMarker { guild, channel },
        ),
    }
}

fn finish(outcome: ReaperOutcome) -> (r: (ReaperState, ReaperAction))
    ensures
        r == spec_finish(outcome),
{
    (ReaperState::Done { outcome }, ReaperAction::Finish { outcome })
}

/// Advance a reaper run by one event, yielding the next state and the
/// next action to perform.
pub fn step(s: ReaperState, e: ReaperEvent) -> (r: (ReaperState, ReaperAction))
    ensures
        r == spec_step(s, e),
{
    match s {
        ReaperState::Done { outcome } => finish(outcome),
        _ => match (s, e) {
            (_, ReaperEvent::CallFailed) => {
                let kind = failure_kind(&s);
                finish(ReaperOutcome::Failed { kind })
            },
            (
                ReaperState::AwaitingMarker { guild, channel },
                ReaperEvent::MarkerFetched { created_by_bot },
            ) => {
                if created_by_bot {
                    (
                        ReaperState::AwaitingFirstCount { guild, channel },
                        ReaperAction::FetchMembers { channel },
                    )
                } else {
                    finish(ReaperOutcome::NotManaged)
                }
            },
            (
                ReaperState::AwaitingFirstCount { guild, channel },
                ReaperEvent::MembersCounted { count },
            ) => {
                if count == 0 {
                    (
                        ReaperState::AwaitingConfig { guild, channel },
                        ReaperAction::FetchConfig { guild },
                    )
                } else {
                    finish(ReaperOutcome::StillOccupied)
                }
            },
            (
                ReaperState::AwaitingConfig { guild, channel },
                ReaperEvent::ConfigFetched { command_channel, deletion_seconds, now },
            ) => {
                match command_channel {
                    None => finish(ReaperOutcome::NoCommandChannel),
                    Some(cc) => {
                        let wait = match deletion_seconds {
                            Some(w) => w,
                            None => DEFAULT_DELETION_SECONDS,
                        };
                        let delete_at = if wait <= u64::MAX - now {
                            now + wait
                        } else {
                            u64::MAX
                        };
                        (
                            ReaperState::AwaitingAnnouncement { guild, channel, wait },
                            ReaperAction::Announce { command_channel: cc, channel, delete_at },
                        )
                    },
                }
            },
            (
                ReaperState::AwaitingAnnouncement { guild, channel, wait },
                ReaperEvent::AnnouncementSent,
            ) => (
                ReaperState::Sleeping { guild, channel, wait },
                ReaperAction::Sleep { seconds: wait },
            ),
            (ReaperState::Sleeping { guild, channel, .. }, ReaperEvent::SleepFinished) => (
                ReaperState::AwaitingSecondCount { guild, channel },
                ReaperAction::FetchMembers { channel },
            ),
            (
                ReaperState::AwaitingSecondCount { guild, channel },
                ReaperEvent::MembersCounted { count },
            ) => {
                if count == 0 {
                    (
                        ReaperState::AwaitingDeletion { guild, channel },
                        ReaperAction::Delete { channel },
                    )
                } else {
                    finish(ReaperOutcome::Reoccupied)
                }
            },
            (ReaperState::AwaitingDeletion { guild, channel }, ReaperEvent::ChannelDeleted) => (
                ReaperState::AwaitingEdit { guild, channel },
                ReaperAction::EditAnnouncement { channel },
            ),
            (ReaperState::AwaitingDeletion { .. }, ReaperEvent::ChannelVanished) => finish(
                ReaperOutcome::AlreadyGone,
            ),
            (ReaperState::AwaitingEdit { .. }, ReaperEvent::AnnouncementEdited) => finish(
                ReaperOutcome::Deleted,
            ),
            _ => finish(ReaperOutcome::Failed { kind: ErrorKind::Developer }),
        },
    }
}

fn failure_kind(s: &ReaperState) -> (k: ErrorKind)
    ensures
        k == spec_failure_kind(*s),
{
    match s {
        ReaperState::AwaitingMarker { .. } => ErrorKind::External,
        ReaperState::AwaitingFirstCount { .. } => ErrorKind::External,
        ReaperState::AwaitingConfig { .. } => ErrorKind::External,
        ReaperState::AwaitingAnnouncement { .. } => ErrorKind::Admin,
        ReaperState::Sleeping { .. } => ErrorKind::Developer,
        ReaperState::AwaitingSecondCount { .. } => ErrorKind::External,
        ReaperState::AwaitingDeletion { .. } => ErrorKind::Admin,
        ReaperState::AwaitingEdit { .. } => ErrorKind::Admin,
        ReaperState::Done { .. } => ErrorKind::Developer,
    }
}

/// The states a run passes through when driven by `events` from `s`.
pub open spec fn run_state(s: ReaperState, events: Seq<ReaperEvent>) -> ReaperState
    decreases events.len(),
{
    if events.len() == 0 {
        s
    } else {
        run_state(spec_step(s, events[0]).0, events.drop_first())
    }
}

/// The actions a run emits when driven by `events` from `s`, one action
/// per event.
pub open spec fn run_actions(s: ReaperState, events: Seq<ReaperEvent>) -> Seq<ReaperAction>
    decreases events.len(),
{
    if events.len() == 0 {
        Seq::<ReaperAction>::empty()
    } else {
        seq![spec_step(s, events[0]).1] + run_actions(spec_step(s, events[0]).0, events.drop_first())
    }
}

/// A finished run is inert: whatever events still arrive, it only ever
/// repeats its closing action and touches nothing.
pub proof fn lemma_done_inert(outcome: ReaperOutcome, events: Seq<ReaperEvent>)
    ensures
        run_state(ReaperState::Done { outcome }, events) == (ReaperState::Done { outcome }),
        run_actions(ReaperState::Done { outcome }, events).len() == events.len(),
        forall|i: int|
            0 <= i < events.len() ==> run_actions(ReaperState::Done { outcome }, events)[i]
                == (ReaperAction::Finish { outcome }),
    decreases events.len(),
{
    if events.len() > 0 {
        lemma_done_inert(outcome, events.drop_first());
    }
}

/// Every event consumed emits exactly one action.
pub proof fn lemma_run_actions_len(s: ReaperState, events: Seq<ReaperEvent>)
    ensures
        run_actions(s, events).len() == events.len(),
    decreases events.len(),
{
    if events.len() > 0 {
        lemma_run_actions_len(spec_step(s, events[0]).0, events.drop_first());
    }
}

/// The grace period of a run: the guild's configured deletion time, or the
/// default when none is set.
pub open spec fn spec_wait(deletion_seconds: Option<u64>) -> u64 {
    match deletion_seconds {
        Some(w) => w,
        None => DEFAULT_DELETION_SECONDS,
    }
}

/// A channel whose created-by-bot marker does not exist is never touched:
/// once the marker check reports `false`, the run — however it is driven
/// afterwards — never announces, never sleeps, never deletes and never
/// edits, regardless of emptiness.
pub proof fn lemma_unmanaged_channel_untouched(
    guild: GuildId,
    channel: ChannelId,
    events: Seq<ReaperEvent>,
)
    requires
        events.len() > 0,
        events[0] == (ReaperEvent::MarkerFetched { created_by_bot: false }),
    ensures
        run_state(ReaperState::AwaitingMarker { guild, channel }, events) == (ReaperState::Done {
            outcome: ReaperOutcome::NotManaged,
        }),
        forall|i: int|
            0 <= i < events.len() ==> {
                let a = #[trigger] run_actions(
                    ReaperState::AwaitingMarker { guild, channel },
                    events,
                )[i];
                !(a is Announce) && !(a is Sleep) && !(a is Delete) && !(a is EditAnnouncement)
            },
{
    let s0 = ReaperState::AwaitingMarker { guild, channel };
    let done = ReaperState::Done { outcome: ReaperOutcome::NotManaged };
    assert(spec_step(s0, events[0]) == (
        done,
        ReaperAction::Finish { outcome: ReaperOutcome::NotManaged },
    ));
    lemma_done_inert(ReaperOutcome::NotManaged, events.drop_first());
    assert(run_actions(s0, events) == seq![
        ReaperAction::Finish { outcome: ReaperOutcome::NotManaged },
    ] + run_actions(done, events.drop_first()));
}

/// A channel that is empty at the first check but occupied again at the
/// second (somebody rejoined during the grace period) is not deleted, and
/// the announcement is not edited a second time: after the rejoin is seen,
/// the run only finishes, however it is driven afterwards.
pub proof fn lemma_rejoin_aborts(
    guild: GuildId,
    channel: ChannelId,
    cc: ChannelId,
    deletion_seconds: Option<u64>,
    now: u64,
    count: u64,
    events: Seq<ReaperEvent>,
)
    requires
        count > 0,
        events.len() >= 6,
        events[0] == (ReaperEvent::MarkerFetched { created_by_bot: true }),
        events[1] == (ReaperEvent::MembersCounted { count: 0u64 }),
        events[2] == (ReaperEvent::ConfigFetched {
            command_channel: Some(cc),
            deletion_seconds,
            now,
        }),
        events[3] == ReaperEvent::AnnouncementSent,
        events[4] == ReaperEvent::SleepFinished,
        events[5] == (ReaperEvent::MembersCounted { count }),
    ensures
        run_state(ReaperState::AwaitingMarker { guild, channel }, events) == (ReaperState::Done {
            outcome: ReaperOutcome::Reoccupied,
        }),
        forall|i: int|
            0 <= i < events.len() ==> {
                let a = #[trigger] run_actions(
                    ReaperState::AwaitingMarker { guild, channel },
                    events,
                )[i];
                !(a is Delete) && !(a is EditAnnouncement)
            },
{
    let s0 = ReaperState::AwaitingMarker { guild, channel };
    let wait = spec_wait(deletion_seconds);
    let s1 = ReaperState::AwaitingFirstCount { guild, channel };
    let s2 = ReaperState::AwaitingConfig { guild, channel };
    let s3 = ReaperState::AwaitingAnnouncement { guild, channel, wait };
    let s4 = ReaperState::Sleeping { guild, channel, wait };
    let s5 = ReaperState::AwaitingSecondCount { guild, channel };
    let done = ReaperState::Done { outcome: ReaperOutcome::Reoccupied };

    let ev1 = events.drop_first();
    let ev2 = ev1.drop_first();
    let ev3 = ev2.drop_first();
    let ev4 = ev3.drop_first();
    let ev5 = ev4.drop_first();
    let ev6 = ev5.drop_first();

    assert(ev1[0] == events[1] && ev2[0] == events[2] && ev3[0] == events[3] && ev4[0]
        == events[4] && ev5[0] == events[5]);

    assert(spec_step(s0, events[0]).0 == s1);
    assert(spec_step(s1, events[1]).0 == s2);
    assert(spec_step(s2, events[2]).0 == s3);
    assert(spec_step(s3, events[3]).0 == s4);
    assert(spec_step(s4, events[4]).0 == s5);
    assert(spec_step(s5, events[5]).0 == done);

    assert(run_state(s0, events) == run_state(s1, ev1));
    assert(run_state(s1, ev1) == run_state(s2, ev2));
    assert(run_state(s2, ev2) == run_state(s3, ev3));
    assert(run_state(s3, ev3) == run_state(s4, ev4));
    assert(run_state(s4, ev4) == run_state(s5, ev5));
    assert(run_state(s5, ev5) == run_state(done, ev6));

    assert(run_actions(s0, events) == seq![spec_step(s0, events[0]).1] + run_actions(s1, ev1));
    assert(run_actions(s1, ev1) == seq![spec_step(s1, events[1]).1] + run_actions(s2, ev2));
    assert(run_actions(s2, ev2) == seq![spec_step(s2, events[2]).1] + run_actions(s3, ev3));
    assert(run_actions(s3, ev3) == seq![spec_step(s3, events[3]).1] + run_actions(s4, ev4));
    assert(run_actions(s4, ev4) == seq![spec_step(s4, events[4]).1] + run_actions(s5, ev5));
    assert(run_actions(s5, ev5) == seq![spec_step(s5, events[5]).1] + run_actions(done, ev6));

    lemma_done_inert(ReaperOutcome::Reoccupied, ev6);
    lemma_run_actions_len(s0, events);

    assert(run_actions(s0, events) =~= seq![
        ReaperAction::FetchMembers { channel },
        ReaperAction::FetchConfig { guild },
        ReaperAction::Announce {
            command_channel: cc,
            channel,
            delete_at: spec_delete_at(now, wait),
        },
        ReaperAction::Sleep { seconds: wait },
        ReaperAction::FetchMembers { channel },
        ReaperAction::Finish { outcome: ReaperOutcome::Reoccupied },
    ] + run_actions(done, ev6));
}

/// A managed channel that is empty at both checks is deleted, with exactly
/// one delete and exactly one announcement edit, the delete coming first:
/// the run fetches the members, fetches the configuration, announces a
/// deletion at now plus the grace period, sleeps for that grace period,
/// re-fetches the members, deletes the channel, edits the announcement,
/// and finishes; nothing else is ever done, however the run is driven
/// afterwards.
pub proof fn lemma_empty_channel_reaped(
    guild: GuildId,
    channel: ChannelId,
    cc: ChannelId,
    deletion_seconds: Option<u64>,
    now: u64,
    events: Seq<ReaperEvent>,
)
    requires
        events.len() >= 8,
        events[0] == (ReaperEvent::MarkerFetched { created_by_bot: true }),
        events[1] == (ReaperEvent::MembersCounted { count: 0u64 }),
        events[2] == (ReaperEvent::ConfigFetched {
            command_channel: Some(cc),
            deletion_seconds,
            now,
        }),
        events[3] == ReaperEvent::AnnouncementSent,
        events[4] == ReaperEvent::SleepFinished,
        events[5] == (ReaperEvent::MembersCounted { count: 0u64 }),
        events[6] == ReaperEvent::ChannelDeleted,
        events[7] == ReaperEvent::AnnouncementEdited,
    ensures
        run_state(ReaperState::AwaitingMarker { guild, channel }, events) == (ReaperState::Done {
            outcome: ReaperOutcome::Deleted,
        }),
        run_actions(ReaperState::AwaitingMarker { guild, channel }, events)[2]
            == (ReaperAction::Announce {
            command_channel: cc,
            channel,
            delete_at: spec_delete_at(now, spec_wait(deletion_seconds)),
        }),
        run_actions(ReaperState::AwaitingMarker { guild, channel }, events)[3]
            == (ReaperAction::Sleep { seconds: spec_wait(deletion_seconds) }),
        run_actions(ReaperState::AwaitingMarker { guild, channel }, events)[5]
            == (ReaperAction::Delete { channel }),
        run_actions(ReaperState::AwaitingMarker { guild, channel }, events)[6]
            == (ReaperAction::EditAnnouncement { channel }),
        forall|i: int|
            0 <= i < events.len() && i != 5 ==> !(#[trigger] run_actions(
                ReaperState::AwaitingMarker { guild, channel },
                events,
            )[i] is Delete),
        forall|i: int|
            0 <= i < events.len() && i != 6 ==> !(#[trigger] run_actions(
                ReaperState::AwaitingMarker { guild, channel },
                events,
            )[i] is EditAnnouncement),
{
    let s0 = ReaperState::AwaitingMarker { guild, channel };
    let wait = spec_wait(deletion_seconds);
    let s1 = ReaperState::AwaitingFirstCount { guild, channel };
    let s2 = ReaperState::AwaitingConfig { guild, channel };
    let s3 = ReaperState::AwaitingAnnouncement { guild, channel, wait };
    let s4 = ReaperState::Sleeping { guild, channel, wait };
    let s5 = ReaperState::AwaitingSecondCount { guild, channel };
    let s6 = ReaperState::AwaitingDeletion { guild, channel };
    let s7 = ReaperState::AwaitingEdit { guild, channel };
    let done = ReaperState::Done { outcome: ReaperOutcome::Deleted };

    let ev1 = events.drop_first();
    let ev2 = ev1.drop_first();
    let ev3 = ev2.drop_first();
    let ev4 = ev3.drop_first();
    let ev5 = ev4.drop_first();
    let ev6 = ev5.drop_first();
    let ev7 = ev6.drop_first();
    let ev8 = ev7.drop_first();

    assert(ev1[0] == events[1] && ev2[0] == events[2] && ev3[0] == events[3] && ev4[0]
        == events[4] && ev5[0] == events[5] && ev6[0] == events[6] && ev7[0] == events[7]);

    assert(spec_step(s0, events[0]).0 == s1);
    assert(spec_step(s1, events[1]).0 == s2);
    assert(spec_step(s2, events[2]).0 == s3);
    assert(spec_step(s3, events[3]).0 == s4);
    assert(spec_step(s4, events[4]).0 == s5);
    assert(spec_step(s5, events[5]).0 == s6);
    assert(spec_step(s6, events[6]).0 == s7);
    assert(spec_step(s7, events[7]).0 == done);

    assert(run_state(s0, events) == run_state(s1, ev1));
    assert(run_state(s1, ev1) == run_state(s2, ev2));
    assert(run_state(s2, ev2) == run_state(s3, ev3));
    assert(run_state(s3, ev3) == run_state(s4, ev4));
    assert(run_state(s4, ev4) == run_state(s5, ev5));
    assert(run_state(s5, ev5) == run_state(s6, ev6));
    assert(run_state(s6, ev6) == run_state(s7, ev7));
    assert(run_state(s7, ev7) == run_state(done, ev8));

    assert(run_actions(s0, events) == seq![spec_step(s0, events[0]).1] + run_actions(s1, ev1));
    assert(run_actions(s1, ev1) == seq![spec_step(s1, events[1]).1] + run_actions(s2, ev2));
    assert(run_actions(s2, ev2) == seq![spec_step(s2, events[2]).1] + run_actions(s3, ev3));
    assert(run_actions(s3, ev3) == seq![spec_step(s3, events[3]).1] + run_actions(s4, ev4));
    assert(run_actions(s4, ev4) == seq![spec_step(s4, events[4]).1] + run_actions(s5, ev5));
    assert(run_actions(s5, ev5) == seq![spec_step(s5, events[5]).1] + run_actions(s6, ev6));
    assert(run_actions(s6, ev6) == seq![spec_step(s6, events[6]).1] + run_actions(s7, ev7));
    assert(run_actions(s7, ev7) == seq![spec_step(s7, events[7]).1] + run_actions(done, ev8));

    lemma_done_inert(ReaperOutcome::Deleted, ev8);
    lemma_run_actions_len(s0, events);

    assert(run_actions(s0, events) =~= seq![
        ReaperAction::FetchMembers { channel },
        ReaperAction::FetchConfig { guild },
        ReaperAction::Announce {
            command_channel: cc,
            channel,
            delete_at: spec_delete_at(now, wait),
        },
        ReaperAction::Sleep { seconds: wait },
        ReaperAction::FetchMembers { channel },
        ReaperAction::Delete { channel },
        ReaperAction::EditAnnouncement { channel },
        ReaperAction::Finish { outcome: ReaperOutcome::Deleted },
    ] + run_actions(done, ev8));
}

} // verus!
