use bob::config::{
    check_administrator, check_command_channel_kind, check_config_cc_allowed,
    check_config_dt_allowed, check_in_command_channel, check_save_overwrite_allowed,
    deletion_seconds_from_choice,
};
use bob::convert::{seconds_from_column, seconds_to_column, BobFrom};
use bob::errors::ErrorKind;
use bob::model::{ChannelId, ChannelInfo, ChannelKind, GuildId};
use bob::presets::PresetData;
use bob::store::{
    classify_save_action, decide_preset_save, plan_marker_write, plan_setting_unset,
    plan_setting_write, DatabaseAction, PresetSaveDecision, SaveReply, SettingWrite,
};

#[test]
fn setting_writes_update_or_insert() {
    assert_eq!(plan_setting_write(true), SettingWrite::UpdateExisting);
    assert_eq!(plan_setting_write(false), SettingWrite::InsertNew);
}

#[test]
fn unsetting_deletes_only_what_exists() {
    assert!(matches!(plan_setting_unset::<u32>(true), DatabaseAction::Deleted));
    assert!(matches!(plan_setting_unset::<u32>(false), DatabaseAction::Unchanged));
}

#[test]
fn marking_is_idempotent() {
    assert!(plan_marker_write(false));
    assert!(!plan_marker_write(true));
}

#[test]
fn preset_saves_respect_the_overwrite_flag() {
    assert_eq!(decide_preset_save(false, false), PresetSaveDecision::CreateNew);
    assert_eq!(decide_preset_save(false, true), PresetSaveDecision::CreateNew);
    assert_eq!(decide_preset_save(true, true), PresetSaveDecision::OverwriteExisting);
    assert_eq!(decide_preset_save(true, false), PresetSaveDecision::RejectExisting);
}

#[test]
fn save_outcomes_are_reported_by_kind() {
    assert_eq!(classify_save_action(DatabaseAction::Created(1)).unwrap(), SaveReply::CreatedNew);
    assert_eq!(classify_save_action(DatabaseAction::Updated(1)).unwrap(), SaveReply::Overwritten);

    let rejected = classify_save_action(DatabaseAction::<u32>::Unchanged).unwrap_err();
    assert_eq!(rejected.knd, ErrorKind::User);
    assert_eq!(rejected.msg.as_deref(), Some("A preset with that name already exists."));

    let broken = classify_save_action(DatabaseAction::<u32>::Deleted).unwrap_err();
    assert_eq!(broken.knd, ErrorKind::Developer);
}

#[test]
fn command_channel_config_needs_manage_channels_and_a_text_channel() {
    assert!(check_config_cc_allowed(true).is_ok());
    let e = check_config_cc_allowed(false).unwrap_err();
    assert_eq!(e.knd, ErrorKind::User);

    assert!(check_command_channel_kind(ChannelKind::Text).is_ok());
    let e = check_command_channel_kind(ChannelKind::Voice).unwrap_err();
    assert_eq!(e.knd, ErrorKind::User);
}

#[test]
fn deletion_time_config_needs_manage_guild() {
    assert!(check_config_dt_allowed(true).is_ok());
    assert_eq!(check_config_dt_allowed(false).unwrap_err().knd, ErrorKind::User);
}

#[test]
fn overwriting_a_preset_needs_manage_channels() {
    assert!(check_save_overwrite_allowed(false, false).is_ok());
    assert!(check_save_overwrite_allowed(true, true).is_ok());
    assert_eq!(check_save_overwrite_allowed(true, false).unwrap_err().knd, ErrorKind::User);
}

#[test]
fn commands_must_be_sent_in_the_command_channel() {
    let cc = ChannelId(5);
    assert!(check_in_command_channel(Some(cc), ChannelId(5)).is_ok());
    let elsewhere = check_in_command_channel(Some(cc), ChannelId(6)).unwrap_err();
    assert_eq!(elsewhere.knd, ErrorKind::User);
    let unset = check_in_command_channel(None, ChannelId(5)).unwrap_err();
    assert_eq!(unset.knd, ErrorKind::User);
    assert_eq!(unset.msg.as_deref(), Some("This server has not yet set a Command Channel."));
}

#[test]
fn administrator_check_rejects_everyone_else() {
    assert!(check_administrator(true).is_ok());
    assert_eq!(check_administrator(false).unwrap_err().knd, ErrorKind::User);
}

#[test]
fn deletion_seconds_from_choice_is_the_magnitude() {
    assert_eq!(deletion_seconds_from_choice(300), 300);
    assert_eq!(deletion_seconds_from_choice(-300), 300);
    assert_eq!(deletion_seconds_from_choice(0), 0);
    assert_eq!(deletion_seconds_from_choice(i64::MIN), 1u64 << 63);
}

#[test]
fn ids_convert_to_and_from_store_columns() {
    assert_eq!(ChannelId::bobfrom(42).unwrap(), ChannelId(42));
    assert_eq!(GuildId::bobfrom(42).unwrap(), GuildId(42));
    assert_eq!(i64::bobfrom(ChannelId(42)).unwrap(), 42);
    assert_eq!(i64::bobfrom(GuildId(42)).unwrap(), 42);

    // Negative columns are corrupt ids.
    assert!(ChannelId::bobfrom(-1).is_err());
    assert!(GuildId::bobfrom(-1).is_err());

    // Ids beyond the signed range cannot be stored.
    assert!(i64::bobfrom(ChannelId(u64::MAX)).is_err());
    assert!(i64::bobfrom(GuildId(u64::MAX)).is_err());
}

#[test]
fn durations_convert_to_and_from_store_columns() {
    assert_eq!(seconds_from_column(60).unwrap(), 60);
    assert!(seconds_from_column(-1).is_err());
    assert_eq!(seconds_to_column(60).unwrap(), 60);
    assert!(seconds_to_column(u64::MAX).is_err());
}

#[test]
fn presets_capture_a_voice_channel_configuration() {
    let channel = ChannelInfo {
        id: ChannelId(1),
        guild_id: GuildId(2),
        kind: ChannelKind::Voice,
        bitrate: Some(96000),
        user_limit: Some(8),
        permission_overwrites: vec![],
    };
    let p: PresetData = channel.preset_data().unwrap();
    assert_eq!(p.bitrate, 96000);
    assert_eq!(p.user_limit, Some(8));
    assert!(p.permissions.is_empty());
}

#[test]
fn presets_reject_non_voice_templates() {
    let channel = ChannelInfo {
        id: ChannelId(1),
        guild_id: GuildId(2),
        kind: ChannelKind::Text,
        bitrate: None,
        user_limit: None,
        permission_overwrites: vec![],
    };
    let e = channel.preset_data().unwrap_err();
    assert_eq!(e.knd, ErrorKind::User);
    assert_eq!(e.msg.as_deref(), Some("Channel is not a voice channel"));
}

#[test]
fn presets_require_a_bitrate() {
    let channel = ChannelInfo {
        id: ChannelId(1),
        guild_id: GuildId(2),
        kind: ChannelKind::Voice,
        bitrate: None,
        user_limit: None,
        permission_overwrites: vec![],
    };
    let e = channel.preset_data().unwrap_err();
    assert_eq!(e.knd, ErrorKind::External);
}
