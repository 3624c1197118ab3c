//! The channel builder: the orchestration of building a temporary voice
//! channel, as a pure state machine.
//!
//! A build resolves the preset (when one was named), computes the channel
//! plan — merged permission overwrites, bitrate, user limit — asks the
//! platform to create the channel, marks it in the store as created by the
//! bot, and moves the requester into it. The machine consumes
//! [`BuilderEvent`]s describing what the platform and the store reported
//! and emits [`BuilderAction`]s for the caller to perform; the caller
//! holds the [`BuildRequest`] and computes the plan with [`make_plan`]
//! when asked to create the channel.
//!
//! Failure semantics follow the operation's one-way character: an unknown
//! preset stops the build before anything is created; a creation failure
//! is fatal; a failed marker write degrades the channel (it will never be
//! reaped) but does not undo the build; and a failed move leaves the
//! channel standing.

use vstd::prelude::*;
use crate::errors::{BobError, BobResult, ErrorKind};
use crate::model::{CategoryInfo, ChannelId, ChannelKind, GuildId, UserId};
use crate::permission_overwrites::{
    spec_merge, spec_owner, ChannelBuilderPermissionOverwrites, PermissionOverwrite,
};
use crate::presets::{PresetData, DEFAULT_BITRATE};

verus! {

/// A request to build one channel; it exists only for the duration of the
/// build.
#[derive(Debug)]
pub struct BuildRequest {
    pub guild: GuildId,
    /// The sanitized name the channel will carry.
    pub name: String,
    /// The kind of channel to build; only voice-capable kinds are buildable.
    pub kind: ChannelKind,
    /// The user who asked for the channel.
    pub creator: UserId,
    /// The bot's own user id.
    pub own_id: UserId,
    /// The parent category, if the channel is built inside one.
    pub category: Option<CategoryInfo>,
    /// The name of the preset to build from, if one was named.
    pub preset_name: Option<String>,
}

/// Everything the platform needs to create the channel.
#[derive(Debug)]
pub struct ChannelPlan {
    pub guild: GuildId,
    pub name: String,
    pub kind: ChannelKind,
    pub category: Option<ChannelId>,
    pub overwrites: Vec<PermissionOverwrite>,
    pub bitrate: u64,
    pub user_limit: Option<u64>,
}

/// The permission overwrites a request's parent category contributes.
pub open spec fn spec_category_overwrites(category: Option<CategoryInfo>) -> Seq<
    PermissionOverwrite,
> {
    match category {
        Some(c) => c.permission_overwrites@,
        None => Seq::<PermissionOverwrite>::empty(),
    }
}

/// The permission overwrites a resolved preset contributes.
pub open spec fn spec_preset_overwrites(preset: Option<PresetData>) -> Seq<PermissionOverwrite> {
    match preset {
        Some(p) => p.permissions@,
        None => Seq::<PermissionOverwrite>::empty(),
    }
}

/// Compute the plan for a request and its resolved preset: the merged
/// permission overwrites in their authoritative order, the preset's
/// bitrate or the default, and the preset's user limit or none.
pub fn make_plan(request: BuildRequest, preset: Option<PresetData>) -> (plan: ChannelPlan)
    ensures
        plan.guild == request.guild,
        plan.name@ == request.name@,
        plan.kind == request.kind,
        plan.category == (match request.category {
            Some(c) => Some(c.id),
            None => None::<ChannelId>,
        }),
        plan.overwrites@ == spec_merge(
            spec_category_overwrites(request.category),
            spec_preset_overwrites(preset),
            spec_owner(request.creator),
            spec_owner(request.own_id),
        ),
        plan.bitrate == (match preset {
            Some(p) => p.bitrate,
            None => DEFAULT_BITRATE,
        }),
        plan.user_limit == (match preset {
            Some(p) => p.user_limit,
            None => None::<u64>,
        }),
{
    let (category_id, category_permows): (Option<ChannelId>, Vec<PermissionOverwrite>) =
        match request.category {
        Some(c) => (Some(c.id), c.permission_overwrites),
        None => (None, Vec::new()),
    };
    let (bitrate, user_limit, preset_permows): (u64, Option<u64>, Vec<PermissionOverwrite>) =
        match preset {
        Some(p) => (p.bitrate, p.user_limit, p.permissions),
        None => (DEFAULT_BITRATE, None, Vec::new()),
    };
    let overwrites = ChannelBuilderPermissionOverwrites::build(
        request.own_id,
        request.creator,
        category_permows,
        preset_permows,
    ).merge();
    ChannelPlan {
        guild: request.guild,
        name: request.name,
        kind: request.kind,
        category: category_id,
        overwrites,
        bitrate,
        user_limit,
    }
}

/// Whether a channel of this kind can be built: only voice-capable kinds.
pub open spec fn spec_is_buildable_kind(kind: ChannelKind) -> bool {
    kind == ChannelKind::Voice || kind == ChannelKind::Stage
}

/// How a build ended.
#[derive(Clone, Copy, Debug, PartialEq, Eq)]
pub enum BuildOutcome {
    /// The channel was built and the requester moved into it.
    Built { channel: ChannelId },
    /// The channel was built and remains standing, but the requester could
    /// not be moved into it; `not_connected` says whether that was because
    /// the requester is not connected to voice.
    BuiltButNotMoved { channel: ChannelId, not_connected: bool },
    /// No preset with the requested name exists; nothing was created.
    UnknownPreset,
    /// The requested channel kind is not voice-capable.
    InvalidKind,
    /// The preset lookup or the channel creation failed, classified by its
    /// cause.
    Failed { kind: ErrorKind },
}

/// What the platform or the store reported back for the pending action.
#[derive(Clone, Copy, Debug, PartialEq, Eq)]
pub enum BuilderEvent {
    /// Whether a preset with the requested name exists (its payload stays
    /// with the caller, who hands it to [`make_plan`]).
    PresetFetched { found: bool },
    /// The channel was created.
    ChannelCreated { channel: ChannelId },
    /// The created-by-bot marker was written.
    MarkerSaved,
    /// The marker write failed: the channel stands but will never be
    /// auto-reaped. Accepted degraded behavior, not rolled back.
    MarkerSaveFailed,
    /// The requester was moved into the channel.
    CreatorMoved,
    /// The move failed; `not_connected` says whether the requester was not
    /// connected to voice (the user's mistake) as opposed to any other
    /// platform failure.
    MoveFailed { not_connected: bool },
    /// The pending platform or store call failed.
    CallFailed,
}

/// What the caller must do next.
#[derive(Clone, Copy, Debug, PartialEq, Eq)]
pub enum BuilderAction {
    /// Look the named preset up in the store.
    FetchPreset { guild: GuildId },
    /// Create the channel from the plan computed by [`make_plan`].
    CreateChannel { guild: GuildId },
    /// Write the created-by-bot marker; only marked channels are ever
    /// auto-reaped.
    MarkCreated { guild: GuildId, channel: ChannelId },
    /// Move the requester into the built channel.
    MoveCreator { guild: GuildId, user: UserId, channel: ChannelId },
    /// The build is over; no further action follows.
    Finish { outcome: BuildOutcome },
}

/// Where a build stands: which report it is waiting for.
#[derive(Clone, Copy, Debug, PartialEq, Eq)]
pub enum BuilderState {
    AwaitingPreset { guild: GuildId, creator: UserId },
    AwaitingCreation { guild: GuildId, creator: UserId },
    AwaitingMarker { guild: GuildId, creator: UserId, channel: ChannelId },
    AwaitingMove { channel: ChannelId },
    Done { outcome: BuildOutcome },
}

/// A finished build: the terminal state and its closing action.
pub open spec fn spec_build_finish(outcome: BuildOutcome) -> (BuilderState, BuilderAction) {
    (BuilderState::Done { outcome }, BuilderAction::Finish { outcome })
}

/// How a failure of the call pending in state `s` is classified: a store
/// read that fails is an external failure, a creation that fails is an
/// administrative error, and a failure in a state with no pending call
/// means the core's own assumption broke.
pub open spec fn spec_build_failure_kind(s: BuilderState) -> ErrorKind {
    match s {
        BuilderState::AwaitingPreset { .. } => ErrorKind::External,
        BuilderState::AwaitingCreation { .. } => ErrorKind::Admin,
        BuilderState::AwaitingMarker { .. } => ErrorKind::Developer,
        BuilderState::AwaitingMove { .. } => ErrorKind::Developer,
        BuilderState::Done { .. } => ErrorKind::Developer,
    }
}

/// Start a build: reject a kind that is not voice-capable, resolve the
/// preset when one was named, and otherwise go straight to creation.
pub open spec fn spec_start_build(
    guild: GuildId,
    creator: UserId,
    kind: ChannelKind,
    preset_named: bool,
) -> (BuilderState, BuilderAction) {
    if !spec_is_buildable_kind(kind) {
        spec_build_finish(BuildOutcome::InvalidKind)
    } else if preset_named {
        (BuilderState::AwaitingPreset { guild, creator }, BuilderAction::FetchPreset { guild })
    } else {
        (BuilderState::AwaitingCreation { guild, creator }, BuilderAction::CreateChannel { guild })
    }
}

/// The transition relation of the builder: from the current state and the
/// event that answers its pending action, the next state and the next
/// action.
pub open spec fn spec_build_step(s: BuilderState, e: BuilderEvent) -> (BuilderState, BuilderAction) {
    match s {
        BuilderState::Done { outcome } => spec_build_finish(outcome),
        _ => match (s, e) {
            (_, BuilderEvent::CallFailed) => spec_build_finish(BuildOutcome::Failed {
                kind: spec_build_failure_kind(s),
            }),
            (
                BuilderState::AwaitingPreset { guild, creator },
                BuilderEvent::PresetFetched { found },
            ) => if found {
                (
                    BuilderState::AwaitingCreation { guild, creator },
                    BuilderAction::CreateChannel { guild },
                )
            } else {
                spec_build_finish(BuildOutcome::UnknownPreset)
            },
            (
                BuilderState::AwaitingCreation { guild, creator },
                BuilderEvent::ChannelCreated { channel },
            ) => (
                BuilderState::AwaitingMarker { guild, creator, channel },
                BuilderAction::MarkCreated { guild, channel },
            ),
            (BuilderState::AwaitingMarker { guild, creator, channel }, BuilderEvent::MarkerSaved)
                => (
                BuilderState::AwaitingMove { channel },
                BuilderAction::MoveCreator { guild, user: creator, channel },
            ),
            (
                BuilderState::AwaitingMarker { guild, creator, channel },
                BuilderEvent::MarkerSaveFailed,
            ) => (
                BuilderState::AwaitingMove { channel },
                BuilderAction::MoveCreator { guild, user: creator, channel },
            ),
            (BuilderState::AwaitingMove { channel }, BuilderEvent::CreatorMoved) =>
                spec_build_finish(BuildOutcome::Built { channel }),
            (BuilderState::AwaitingMove { channel }, BuilderEvent::MoveFailed { not_connected })
                => spec_build_finish(BuildOutcome::BuiltButNotMoved { channel, not_connected }),
            _ => spec_build_finish(BuildOutcome::Failed { kind: ErrorKind::Developer }),
        },
    }
}

fn build_finish(outcome: BuildOutcome) -> (r: (BuilderState, BuilderAction))
    ensures
        r == spec_build_finish(outcome),
{
    (BuilderState::Done { outcome }, BuilderAction::Finish { outcome })
}

/// Begin a build for a request.
pub fn start_build(request: &BuildRequest) -> (r: (BuilderState, BuilderAction))
    ensures
        r == spec_start_build(
            request.guild,
            request.creator,
            request.kind,
            request.preset_name is Some,
        ),
{
    let buildable = matches!(request.kind, ChannelKind::Voice | ChannelKind::Stage);
    if !buildable {
        build_finish(BuildOutcome::InvalidKind)
    } else if request.preset_name.is_some() {
        (
            BuilderState::AwaitingPreset { guild: request.guild, creator: request.creator },
            BuilderAction::FetchPreset { guild: request.guild },
        )
    } else {
        (
            BuilderState::AwaitingCreation { guild: request.guild, creator: request.creator },
            BuilderAction::CreateChannel { guild: request.guild },
        )
    }
}

/// Advance a build by one event, yielding the next state and the next
/// action to perform.
pub fn build_step(s: BuilderState, e: BuilderEvent) -> (r: (BuilderState, BuilderAction))
    ensures
        r == spec_build_step(s, e),
{
    match s {
        BuilderState::Done { outcome } => build_finish(outcome),
        _ => match (s, e) {
            (_, BuilderEvent::CallFailed) => {
                let kind = match s {
                    BuilderState::AwaitingPreset { .. } => ErrorKind::External,
                    BuilderState::AwaitingCreation { .. } => ErrorKind::Admin,
                    _ => ErrorKind::Developer,
                };
                build_finish(BuildOutcome::Failed { kind })
            },
            (
                BuilderState::AwaitingPreset { guild, creator },
                BuilderEvent::PresetFetched { found },
            ) => {
                if found {
                    (
                        BuilderState::AwaitingCreation { guild, creator },
                        BuilderAction::CreateChannel { guild },
                    )
                } else {
                    build_finish(BuildOutcome::UnknownPreset)
                }
            },
            (
                BuilderState::AwaitingCreation { guild, creator },
                BuilderEvent::ChannelCreated { channel },
            ) => (
                BuilderState::AwaitingMarker { guild, creator, channel },
                BuilderAction::MarkCreated { guild, channel },
            ),
            (BuilderState::AwaitingMarker { guild, creator, channel }, BuilderEvent::MarkerSaved)
                => (
                BuilderState::AwaitingMove { channel },
                BuilderAction::MoveCreator { guild, user: creator, channel },
            ),
            (
                BuilderState::AwaitingMarker { guild, creator, channel },
                BuilderEvent::MarkerSaveFailed,
            ) => (
                BuilderState::AwaitingMove { channel },
                BuilderAction::MoveCreator { guild, user: creator, channel },
            ),
            (BuilderState::AwaitingMove { channel }, BuilderEvent::CreatorMoved) => build_finish(
                BuildOutcome::Built { channel },
            ),
            (BuilderState::AwaitingMove { channel }, BuilderEvent::MoveFailed { not_connected })
                => build_finish(BuildOutcome::BuiltButNotMoved { channel, not_connected }),
            _ => build_finish(BuildOutcome::Failed { kind: ErrorKind::Developer }),
        },
    }
}

/// Report a finished build to the caller: the built channel on success,
/// and otherwise the error, classified. A requester who was not connected
/// to voice made a mistake of their own; any other move failure, and a
/// creation failure, is administrative.
pub fn outcome_result(outcome: BuildOutcome) -> (r: BobResult<ChannelId>)
    ensures
        outcome matches BuildOutcome::Built { channel } ==> r == Ok::<ChannelId, BobError>(channel),
        r is Ok <==> outcome is Built,
        (outcome matches BuildOutcome::BuiltButNotMoved { channel, not_connected } && not_connected)
            ==> (r matches Err(e) && e.knd == ErrorKind::User),
        (outcome matches BuildOutcome::BuiltButNotMoved { channel, not_connected }
            && !not_connected) ==> (r matches Err(e) && e.knd == ErrorKind::Admin),
        outcome is UnknownPreset ==> (r matches Err(e) && e.knd == ErrorKind::User),
        outcome is InvalidKind ==> (r matches Err(e) && e.knd == ErrorKind::Developer),
        outcome matches BuildOutcome::Failed { kind } ==> (r matches Err(e) && e.knd == kind),
{
    match outcome {
        BuildOutcome::Built { channel } => Ok(channel),
        BuildOutcome::BuiltButNotMoved { channel: _, not_connected } => {
            if not_connected {
                Err(BobError::from_msg(ErrorKind::User, "You're not connected to voice chat!"))
            } else {
                Err(
                    BobError::from_msg(
                        ErrorKind::Admin,
                        "Couldn't move user to the newly created channel.",
                    ),
                )
            }
        },
        BuildOutcome::UnknownPreset => Err(BobError::from_msg(ErrorKind::User, "No such preset.")),
        BuildOutcome::InvalidKind => Err(
            BobError::from_msg(ErrorKind::Developer, "Invalid channel kind."),
        ),
        BuildOutcome::Failed { kind } => Err(
            BobError::from_msg(kind, "Failed to build the channel."),
        ),
    }
}

/// The states a build passes through when driven by `events` from `s`.
pub open spec fn build_run_state(s: BuilderState, events: Seq<BuilderEvent>) -> BuilderState
    decreases events.len(),
{
    if events.len() == 0 {
        s
    } else {
        build_run_state(spec_build_step(s, events[0]).0, events.drop_first())
    }
}

/// The actions a build emits when driven by `events` from `s`, one action
/// per event.
pub open spec fn build_run_actions(s: BuilderState, events: Seq<BuilderEvent>) -> Seq<BuilderAction>
    decreases events.len(),
{
    if events.len() == 0 {
        Seq::<BuilderAction>::empty()
    } else {
        seq![spec_build_step(s, events[0]).1] + build_run_actions(
            spec_build_step(s, events[0]).0,
            events.drop_first(),
        )
    }
}

/// A finished build is inert: whatever events still arrive, it only ever
/// repeats its closing action.
pub proof fn lemma_build_done_inert(outcome: BuildOutcome, events: Seq<BuilderEvent>)
    ensures
        build_run_state(BuilderState::Done { outcome }, events) == (BuilderState::Done { outcome }),
        build_run_actions(BuilderState::Done { outcome }, events).len() == events.len(),
        forall|i: int|
            0 <= i < events.len() ==> build_run_actions(BuilderState::Done { outcome }, events)[i]
                == (BuilderAction::Finish { outcome }),
    decreases events.len(),
{
    if events.len() > 0 {
        lemma_build_done_inert(outcome, events.drop_first());
    }
}

/// An unknown preset name stops the build before anything exists: the run
/// ends as the user's mistake and — however it is driven afterwards —
/// never asks for a channel creation, a marker write or a move.
pub proof fn lemma_unknown_preset_builds_nothing(
    guild: GuildId,
    creator: UserId,
    events: Seq<BuilderEvent>,
)
    requires
        events.len() > 0,
        events[0] == (BuilderEvent::PresetFetched { found: false }),
    ensures
        build_run_state(BuilderState::AwaitingPreset { guild, creator }, events)
            == (BuilderState::Done { outcome: BuildOutcome::UnknownPreset }),
        forall|i: int|
            0 <= i < events.len() ==> {
                let a = #[trigger] build_run_actions(
                    BuilderState::AwaitingPreset { guild, creator },
                    events,
                )[i];
                !(a is CreateChannel) && !(a is MarkCreated) && !(a is MoveCreator)
            },
{
    let s0 = BuilderState::AwaitingPreset { guild, creator };
    let done = BuilderState::Done { outcome: BuildOutcome::UnknownPreset };
    assert(spec_build_step(s0, events[0]) == (
        done,
        BuilderAction::Finish { outcome: BuildOutcome::UnknownPreset },
    ));
    lemma_build_done_inert(BuildOutcome::UnknownPreset, events.drop_first());
    assert(build_run_actions(s0, events) == seq![
        BuilderAction::Finish { outcome: BuildOutcome::UnknownPreset },
    ] + build_run_actions(done, events.drop_first()));
}

/// A requester who is not connected to voice does not undo the build: the
/// channel that was created is kept (the outcome still carries it, and the
/// builder has no undo action at all), and the error reported is the
/// user's own. Exactly one creation happened.
pub proof fn lemma_not_connected_keeps_channel(
    guild: GuildId,
    creator: UserId,
    channel: ChannelId,
    marker_event: BuilderEvent,
    events: Seq<BuilderEvent>,
)
    requires
        events.len() >= 3,
        events[0] == (BuilderEvent::ChannelCreated { channel }),
        events[1] == marker_event,
        marker_event == BuilderEvent::MarkerSaved || marker_event
            == BuilderEvent::MarkerSaveFailed,
        events[2] == (BuilderEvent::MoveFailed { not_connected: true }),
    ensures
        build_run_state(BuilderState::AwaitingCreation { guild, creator }, events)
            == (BuilderState::Done {
            outcome: BuildOutcome::BuiltButNotMoved { channel, not_connected: true },
        }),
        forall|i: int|
            0 <= i < events.len() ==> !(#[trigger] build_run_actions(
                BuilderState::AwaitingCreation { guild, creator },
                events,
            )[i] is CreateChannel),
{
    let s0 = BuilderState::AwaitingCreation { guild, creator };
    let s1 = BuilderState::AwaitingMarker { guild, creator, channel };
    let s2 = BuilderState::AwaitingMove { channel };
    let outcome = BuildOutcome::BuiltButNotMoved { channel, not_connected: true };
    let done = BuilderState::Done { outcome };

    let ev1 = events.drop_first();
    let ev2 = ev1.drop_first();
    let ev3 = ev2.drop_first();

    assert(ev1[0] == events[1] && ev2[0] == events[2]);
    assert(spec_build_step(s0, events[0]).0 == s1);
    assert(spec_build_step(s1, events[1]).0 == s2);
    assert(spec_build_step(s2, events[2]).0 == done);

    assert(build_run_state(s0, events) == build_run_state(s1, ev1));
    assert(build_run_state(s1, ev1) == build_run_state(s2, ev2));
    assert(build_run_state(s2, ev2) == build_run_state(done, ev3));

    assert(build_run_actions(s0, events) == seq![spec_build_step(s0, events[0]).1]
        + build_run_actions(s1, ev1));
    assert(build_run_actions(s1, ev1) == seq![spec_build_step(s1, events[1]).1]
        + build_run_actions(s2, ev2));
    assert(build_run_actions(s2, ev2) == seq![spec_build_step(s2, events[2]).1]
        + build_run_actions(done, ev3));

    lemma_build_done_inert(outcome, ev3);

    assert(build_run_actions(s0, events) =~= seq![
        BuilderAction::MarkCreated { guild, channel },
        BuilderAction::MoveCreator { guild, user: creator, channel },
        BuilderAction::Finish { outcome },
    ] + build_run_actions(done, ev3));
}

} // verus!
