//! Validation of the administrator-facing configuration commands and of
//! where a command was issued: who may change a setting, what a command
//! channel may be, and which channel commands must be sent in.

use vstd::prelude::*;
use crate::errors::{BobError, BobResult, ErrorKind};
use crate::model::{ChannelId, ChannelKind};

verus! {

/// Changing the command channel requires the Manage Channels permission.
pub fn check_config_cc_allowed(can_manage_channels: bool) -> (r: BobResult<()>)
    ensures
        r is Ok <==> can_manage_channels,
        r matches Err(e) ==> e.knd == ErrorKind::User,
{
    if can_manage_channels {
        Ok(())
    } else {
        Err(
            BobError::from_msg(
                ErrorKind::User,
                "You need to have **Manage Channels** permission on the guild to change the Command Channel.",
            ),
        )
    }
}

/// Only a text channel can serve as the command channel.
pub fn check_command_channel_kind(kind: ChannelKind) -> (r: BobResult<()>)
    ensures
        r is Ok <==> kind == ChannelKind::Text,
        r matches Err(e) ==> e.knd == ErrorKind::User,
{
    if matches!(kind, ChannelKind::Text) {
        Ok(())
    } else {
        Err(BobError::from_msg(ErrorKind::User, "Only Text Channels are valid Command Channels."))
    }
}

/// Changing the deletion time requires the Manage Guild permission.
pub fn check_config_dt_allowed(can_manage_guild: bool) -> (r: BobResult<()>)
    ensures
        r is Ok <==> can_manage_guild,
        r matches Err(e) ==> e.knd == ErrorKind::User,
{
    if can_manage_guild {
        Ok(())
    } else {
        Err(
            BobError::from_msg(
                ErrorKind::User,
                "You need to have **Manage Guild** permission on the guild to change the Deletion Time.",
            ),
        )
    }
}

/// Overwriting an existing preset requires the Manage Channels permission;
/// saving under a fresh name does not.
pub fn check_save_overwrite_allowed(overwrite: bool, can_manage_channels: bool) -> (r: BobResult<
    (),
>)
    ensures
        r is Ok <==> (!overwrite || can_manage_channels),
        r matches Err(e) ==> e.knd == ErrorKind::User,
{
    if overwrite && !can_manage_channels {
        Err(
            BobError::from_msg(
                ErrorKind::User,
                "You need to have **Manage Channels** permission on the guild to overwrite an existing preset.",
            ),
        )
    } else {
        Ok(())
    }
}

/// Commands must be issued in the guild's configured command channel; a
/// guild without one cannot accept commands at all.
pub fn check_in_command_channel(command_channel: Option<ChannelId>, current: ChannelId) -> (r:
    BobResult<()>)
    ensures
        r is Ok <==> command_channel == Some(current),
        r matches Err(e) ==> e.knd == ErrorKind::User,
{
    match command_channel {
        None => Err(
            BobError::from_msg(ErrorKind::User, "This server has not yet set a Command Channel."),
        ),
        Some(cc) => {
            if cc == current {
                Ok(())
            } else {
                Err(
                    BobError::from_msg(
                        ErrorKind::User,
                        "This message was not sent in the Command Channel.",
                    ),
                )
            }
        },
    }
}

/// Guild administration actions require the Administrator permission.
pub fn check_administrator(is_administrator: bool) -> (r: BobResult<()>)
    ensures
        r is Ok <==> is_administrator,
        r matches Err(e) ==> e.knd == ErrorKind::User,
{
    if is_administrator {
        Ok(())
    } else {
        Err(BobError::from_msg(ErrorKind::User, "You are not an Administrator of this server."))
    }
}

/// The deletion time an administrator chose, as seconds: the magnitude of
/// the supplied integer.
pub fn deletion_seconds_from_choice(timeout: i64) -> (r: u64)
    ensures
        timeout >= 0 ==> r == timeout as u64,
        timeout < 0 ==> r == -(timeout as int),
{
    if timeout >= 0 {
        timeout as u64
    } else if timeout == i64::MIN {
        9223372036854775808u64
    } else {
        (-timeout) as u64
    }
}

} // verus!
