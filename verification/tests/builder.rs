use bob::builder::{
    build_step, make_plan, outcome_result, start_build, BuildOutcome, BuildRequest, BuilderAction,
    BuilderEvent, BuilderState,
};
use bob::errors::ErrorKind;
use bob::model::{CategoryInfo, ChannelId, ChannelKind, GuildId, UserId};
use bob::permission_overwrites::{owner, PermissionOverwrite, PermissionOverwriteType};
use bob::presets::{PresetData, DEFAULT_BITRATE};

const G: GuildId = GuildId(1);
const BOT: UserId = UserId(10);
const REQUESTER: UserId = UserId(20);
const NEW: ChannelId = ChannelId(99);

fn request(preset_name: Option<&str>, category: Option<CategoryInfo>) -> BuildRequest {
    BuildRequest {
        guild: G,
        name: String::from("gaming"),
        kind: ChannelKind::Voice,
        creator: REQUESTER,
        own_id: BOT,
        category,
        preset_name: preset_name.map(String::from),
    }
}

/// Drive a build to its end, collecting every action the machine asks for.
fn drive(req: &BuildRequest, events: &[BuilderEvent]) -> (Vec<BuilderAction>, BuilderState) {
    let (mut state, mut action) = start_build(req);
    let mut actions = vec![action];
    for e in events {
        let (next, a) = build_step(state, *e);
        state = next;
        action = a;
        actions.push(action);
        if matches!(action, BuilderAction::Finish { .. }) {
            break;
        }
    }
    (actions, state)
}

#[test]
fn unknown_preset_is_a_user_error_and_creates_nothing() {
    let req = request(Some("missing"), None);
    let (actions, state) = drive(&req, &[BuilderEvent::PresetFetched { found: false }]);
    assert_eq!(state, BuilderState::Done { outcome: BuildOutcome::UnknownPreset });
    // Zero channel creations were requested.
    for a in &actions {
        assert!(!matches!(a, BuilderAction::CreateChannel { .. }));
        assert!(!matches!(a, BuilderAction::MarkCreated { .. }));
        assert!(!matches!(a, BuilderAction::MoveCreator { .. }));
    }
    let err = outcome_result(BuildOutcome::UnknownPreset).unwrap_err();
    assert_eq!(err.knd, ErrorKind::User);
    assert_eq!(err.msg.as_deref(), Some("No such preset."));
}

#[test]
fn requester_not_in_voice_keeps_the_channel_and_is_a_user_error() {
    let req = request(None, None);
    let (actions, state) = drive(
        &req,
        &[
            BuilderEvent::ChannelCreated { channel: NEW },
            BuilderEvent::MarkerSaved,
            BuilderEvent::MoveFailed { not_connected: true },
        ],
    );
    // The outcome still carries the channel: it exists and nothing undoes it.
    let outcome = BuildOutcome::BuiltButNotMoved { channel: NEW, not_connected: true };
    assert_eq!(state, BuilderState::Done { outcome });
    let creations = actions
        .iter()
        .filter(|a| matches!(a, BuilderAction::CreateChannel { .. }))
        .count();
    assert_eq!(creations, 1);
    let err = outcome_result(outcome).unwrap_err();
    assert_eq!(err.knd, ErrorKind::User);
    assert_eq!(err.msg.as_deref(), Some("You're not connected to voice chat!"));
}

#[test]
fn other_move_failures_are_admin_errors() {
    let outcome = BuildOutcome::BuiltButNotMoved { channel: NEW, not_connected: false };
    let err = outcome_result(outcome).unwrap_err();
    assert_eq!(err.knd, ErrorKind::Admin);
}

#[test]
fn successful_build_runs_create_mark_move_in_order() {
    let req = request(Some("team"), None);
    let (actions, state) = drive(
        &req,
        &[
            BuilderEvent::PresetFetched { found: true },
            BuilderEvent::ChannelCreated { channel: NEW },
            BuilderEvent::MarkerSaved,
            BuilderEvent::CreatorMoved,
        ],
    );
    assert_eq!(
        actions,
        vec![
            BuilderAction::FetchPreset { guild: G },
            BuilderAction::CreateChannel { guild: G },
            BuilderAction::MarkCreated { guild: G, channel: NEW },
            BuilderAction::MoveCreator { guild: G, user: REQUESTER, channel: NEW },
            BuilderAction::Finish { outcome: BuildOutcome::Built { channel: NEW } },
        ]
    );
    assert_eq!(state, BuilderState::Done { outcome: BuildOutcome::Built { channel: NEW } });
    assert_eq!(outcome_result(BuildOutcome::Built { channel: NEW }).unwrap(), NEW);
}

#[test]
fn a_build_without_preset_skips_the_lookup() {
    let req = request(None, None);
    let (state, action) = start_build(&req);
    assert_eq!(state, BuilderState::AwaitingCreation { guild: G, creator: REQUESTER });
    assert_eq!(action, BuilderAction::CreateChannel { guild: G });
}

#[test]
fn a_failed_marker_write_degrades_but_does_not_undo_the_build() {
    let req = request(None, None);
    let (_, state) = drive(
        &req,
        &[
            BuilderEvent::ChannelCreated { channel: NEW },
            BuilderEvent::MarkerSaveFailed,
            BuilderEvent::CreatorMoved,
        ],
    );
    assert_eq!(state, BuilderState::Done { outcome: BuildOutcome::Built { channel: NEW } });
}

#[test]
fn non_voice_kinds_are_rejected_as_developer_errors() {
    let mut req = request(None, None);
    req.kind = ChannelKind::Text;
    let (state, action) = start_build(&req);
    assert_eq!(state, BuilderState::Done { outcome: BuildOutcome::InvalidKind });
    assert_eq!(action, BuilderAction::Finish { outcome: BuildOutcome::InvalidKind });
    let err = outcome_result(BuildOutcome::InvalidKind).unwrap_err();
    assert_eq!(err.knd, ErrorKind::Developer);
}

#[test]
fn creation_failure_is_an_admin_error() {
    let req = request(None, None);
    let (_, state) = drive(&req, &[BuilderEvent::CallFailed]);
    assert_eq!(
        state,
        BuilderState::Done { outcome: BuildOutcome::Failed { kind: ErrorKind::Admin } }
    );
}

#[test]
fn plan_without_preset_uses_the_defaults() {
    let plan = make_plan(request(None, None), None);
    assert_eq!(plan.bitrate, DEFAULT_BITRATE);
    assert_eq!(plan.bitrate, 64000);
    assert_eq!(plan.user_limit, None);
    assert_eq!(plan.category, None);
    assert_eq!(plan.name, "gaming");
    assert_eq!(plan.overwrites, vec![owner(REQUESTER), owner(BOT)]);
}

#[test]
fn plan_merges_category_and_preset_overwrites_in_order() {
    let cat_ow = PermissionOverwrite {
        allow: 7,
        deny: 1,
        kind: PermissionOverwriteType::Role(5),
    };
    let pre_ow = PermissionOverwrite {
        allow: 3,
        deny: 0,
        kind: PermissionOverwriteType::Member(40),
    };
    let category = CategoryInfo { id: ChannelId(55), permission_overwrites: vec![cat_ow] };
    let preset = PresetData { bitrate: 96000, user_limit: Some(4), permissions: vec![pre_ow] };
    let plan = make_plan(request(Some("team"), Some(category)), Some(preset));
    assert_eq!(plan.category, Some(ChannelId(55)));
    assert_eq!(plan.bitrate, 96000);
    assert_eq!(plan.user_limit, Some(4));
    assert_eq!(
        plan.overwrites,
        vec![cat_ow, pre_ow, owner(REQUESTER), owner(BOT)]
    );
}
