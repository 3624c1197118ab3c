//! Presets: named, persisted templates of bitrate, user limit and
//! permission overwrites, captured from a live channel and used when
//! building a new one.

use vstd::prelude::*;
use crate::errors::{BobError, BobResult, ErrorKind};
use crate::model::{ChannelInfo, ChannelKind};
use crate::permission_overwrites::PermissionOverwrite;

verus! {

/// The bitrate used when no preset supplies one, in bits per second.
pub const DEFAULT_BITRATE: u64 = 64000;

/// The payload of a preset record: what a built channel inherits.
#[derive(Debug)]
pub struct PresetData {
    pub bitrate: u64,
    pub user_limit: Option<u64>,
    pub permissions: Vec<PermissionOverwrite>,
}

impl ChannelInfo {
    /// Capture a preset from this channel's live configuration. Only a
    /// voice channel can serve as a template, and it must carry a bitrate.
    pub fn preset_data(self) -> (r: BobResult<PresetData>)
        ensures
            r matches Ok(p) ==> self.kind == ChannelKind::Voice && self.bitrate == Some(p.bitrate)
                && p.user_limit == self.user_limit && p.permissions@
                == self.permission_overwrites@,
            r is Ok <==> (self.kind == ChannelKind::Voice && self.bitrate is Some),
            r matches Err(e) ==> if self.kind != ChannelKind::Voice {
                e.knd == ErrorKind::User
            } else {
                e.knd == ErrorKind::External
            },
    {
        if !matches!(self.kind, ChannelKind::Voice) {
            return Err(BobError::from_msg(ErrorKind::User, "Channel is not a voice channel"));
        }
        match self.bitrate {
            Some(bitrate) => Ok(
                PresetData {
                    bitrate,
                    user_limit: self.user_limit,
                    permissions: self.permission_overwrites,
                },
            ),
            None => Err(BobError::from_msg(ErrorKind::External, "Voice Channel has no bitrate")),
        }
    }
}

} // verus!
