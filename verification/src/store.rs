//! Decision logic for the per-guild configuration store: which write a
//! set, unset, mark or save operation performs, given what already exists,
//! and how the outcome is reported back.
//!
//! The store itself (rows for command channels, deletion times,
//! created-channel markers and presets) is an external collaborator; the
//! caller reads the existing row, asks these functions what to do, and
//! performs the write.

use vstd::prelude::*;
use crate::errors::{BobError, BobResult, ErrorKind};

verus! {

/// What a store operation did to a record.
#[derive(Debug)]
pub enum DatabaseAction<T> {
    Created(T),
    Updated(T),
    Deleted,
    Unchanged,
}

/// The write a "set" operation performs on a setting row.
#[derive(Clone, Copy, Debug, PartialEq, Eq, Structural)]
pub enum SettingWrite {
    /// A row exists: update it in place.
    UpdateExisting,
    /// No row exists yet: insert a new one.
    InsertNew,
}

/// Setting a value updates the existing row if there is one, and inserts a
/// new row otherwise.
pub fn plan_setting_write(existed: bool) -> (w: SettingWrite)
    ensures
        w == if existed {
            SettingWrite::UpdateExisting
        } else {
            SettingWrite::InsertNew
        },
{
    if existed {
        SettingWrite::UpdateExisting
    } else {
        SettingWrite::InsertNew
    }
}

/// Unsetting a value deletes the existing row if there is one and
/// otherwise leaves the store untouched.
pub fn plan_setting_unset<T>(existed: bool) -> (r: DatabaseAction<T>)
    ensures
        existed <==> r is Deleted,
        !existed <==> r is Unchanged,
{
    if existed {
        DatabaseAction::Deleted
    } else {
        DatabaseAction::Unchanged
    }
}

/// A created-by-bot marker is inserted only when it is not already there:
/// marking is idempotent.
pub fn plan_marker_write(existed: bool) -> (needs_insert: bool)
    ensures
        needs_insert == !existed,
{
    !existed
}

/// What saving a preset does, given whether a preset with that name
/// already exists in the guild and whether the caller asked to overwrite.
#[derive(Clone, Copy, Debug, PartialEq, Eq, Structural)]
pub enum PresetSaveDecision {
    /// No preset with that name exists: create it.
    CreateNew,
    /// One exists and the caller asked to overwrite: update it.
    OverwriteExisting,
    /// One exists and the caller did not ask to overwrite: reject the
    /// write, leaving the record untouched.
    RejectExisting,
}

/// A name collision is resolved only by the explicit overwrite flag: an
/// existing record is never replaced silently.
pub fn decide_preset_save(existed: bool, overwrite: bool) -> (d: PresetSaveDecision)
    ensures
        d == PresetSaveDecision::CreateNew <==> !existed,
        d == PresetSaveDecision::OverwriteExisting <==> (existed && overwrite),
        d == PresetSaveDecision::RejectExisting <==> (existed && !overwrite),
{
    if !existed {
        PresetSaveDecision::CreateNew
    } else if overwrite {
        PresetSaveDecision::OverwriteExisting
    } else {
        PresetSaveDecision::RejectExisting
    }
}

/// How the user is answered after a save: which kind of success, or which
/// error.
#[derive(Clone, Copy, Debug, PartialEq, Eq, Structural)]
pub enum SaveReply {
    /// A new preset was created.
    CreatedNew,
    /// An existing preset was overwritten.
    Overwritten,
}

/// Report the outcome of saving a preset: creation and update succeed, a
/// rejected write is the user's mistake, and a deletion here would mean an
/// invariant of the core broke.
pub fn classify_save_action<T>(action: DatabaseAction<T>) -> (r: BobResult<SaveReply>)
    ensures
        action is Created ==> r == Ok::<SaveReply, BobError>(SaveReply::CreatedNew),
        action is Updated ==> r == Ok::<SaveReply, BobError>(SaveReply::Overwritten),
        r is Ok <==> (action is Created || action is Updated),
        action is Deleted ==> (r matches Err(e) && e.knd == ErrorKind::Developer),
        action is Unchanged ==> (r matches Err(e) && e.knd == ErrorKind::User),
{
    match action {
        DatabaseAction::Created(_) => Ok(SaveReply::CreatedNew),
        DatabaseAction::Updated(_) => Ok(SaveReply::Overwritten),
        DatabaseAction::Deleted => Err(
            BobError::from_msg(ErrorKind::Developer, "Saving resulted in the deletion of a preset"),
        ),
        DatabaseAction::Unchanged => Err(
            BobError::from_msg(ErrorKind::User, "A preset with that name already exists."),
        ),
    }
}

} // verus!
