//! Bob is a chat-bot library for managing temporary voice channels in a
//! guild: users build a channel (optionally from a saved preset of
//! permissions, bitrate and user limit), are moved into it, and the channel
//! is reaped automatically once it has sat empty for a configurable grace
//! period.
//!
//! The library holds the verified core: the name sanitizer, the permission
//! merge model, the channel-builder and empty-channel-reaper state machines,
//! the error taxonomy, and the decision logic for the per-guild
//! configuration store. All interaction with the chat platform and the
//! backing store happens outside, driven by the actions these state
//! machines emit.

pub mod errors;
pub mod model;
pub mod permission_overwrites;
pub mod convert;
pub mod channel_names;
pub mod reaper;
pub mod presets;
pub mod store;
pub mod config;
pub mod builder;
