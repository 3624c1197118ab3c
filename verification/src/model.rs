//! Plain data model of the chat-platform objects the core reasons about:
//! identifiers, channel kinds, and snapshots of channels and categories.
//!
//! The platform client owns the live objects; the core only ever sees these
//! plain values, fetched fresh at each decision point.

use vstd::prelude::*;
use crate::permission_overwrites::PermissionOverwrite;

verus! {

/// The identifier of a guild (a chat-platform server).
#[derive(Clone, Copy, Debug, PartialEq, Eq, Structural, Hash)]
pub struct GuildId(pub u64);

/// The identifier of a channel.
#[derive(Clone, Copy, Debug, PartialEq, Eq, Structural, Hash)]
pub struct ChannelId(pub u64);

/// The identifier of a user.
#[derive(Clone, Copy, Debug, PartialEq, Eq, Structural, Hash)]
pub struct UserId(pub u64);

/// The kind of a channel, as far as the core distinguishes them.
#[derive(Clone, Copy, Debug, PartialEq, Eq, Structural)]
pub enum ChannelKind {
    Voice,
    Stage,
    Text,
    Category,
    Other,
}

/// The voice state of one user: the voice channel the user is connected
/// to, if any.
#[derive(Clone, Copy, Debug, PartialEq, Eq)]
pub struct VoiceStateInfo {
    pub channel_id: Option<ChannelId>,
}

/// A snapshot of a channel's configuration, fetched from the platform at
/// the moment a decision is made.
#[derive(Debug, Clone)]
pub struct ChannelInfo {
    pub id: ChannelId,
    pub guild_id: GuildId,
    pub kind: ChannelKind,
    /// The bitrate, present only on voice-capable channels.
    pub bitrate: Option<u64>,
    /// The user limit, if one was configured.
    pub user_limit: Option<u64>,
    pub permission_overwrites: Vec<PermissionOverwrite>,
}

/// A snapshot of a category: a grouping container whose permission
/// overwrites are inherited by the channels built inside it.
#[derive(Debug, Clone)]
pub struct CategoryInfo {
    pub id: ChannelId,
    pub permission_overwrites: Vec<PermissionOverwrite>,
}

} // verus!
