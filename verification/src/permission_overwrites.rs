//! The permission model: per-subject allow/deny permission-bit pairs, and
//! the merge algorithm that computes the overwrite list a newly built
//! channel receives.
//!
//! The merge order is a correctness invariant, not a stylistic choice:
//! category overwrites come first, then preset overwrites, then the
//! requester's full-access overwrite, then the bot's own full-access
//! overwrite. Later entries are the most authoritative for a subject under
//! platform semantics, so the bot's own access is never overridden by
//! category or preset data.

use vstd::prelude::*;
use crate::model::UserId;

verus! {

/// The permission bits of every voice-channel permission, combined.
pub const ALL_VOICE_PERMISSIONS: u64 = 298845201;

/// The subject of a permission overwrite: a single member, or a role.
#[derive(Clone, Copy, Debug, PartialEq, Eq, Structural)]
pub enum PermissionOverwriteType {
    Member(u64),
    Role(u64),
}

/// A per-subject allow/deny permission-bit pair attached to a channel.
#[derive(Clone, Copy, Debug, PartialEq, Eq, Structural)]
pub struct PermissionOverwrite {
    pub allow: u64,
    pub deny: u64,
    pub kind: PermissionOverwriteType,
}

/// Create a [`PermissionOverwrite`] which allows every voice permission and
/// denies none.
pub fn allow_all(kind: PermissionOverwriteType) -> (r: PermissionOverwrite)
    ensures
        r == (PermissionOverwrite { allow: ALL_VOICE_PERMISSIONS, deny: 0u64, kind }),
{
    PermissionOverwrite { allow: ALL_VOICE_PERMISSIONS, deny: 0, kind }
}

/// The full-access overwrite granted to the owner-like subjects of a built
/// channel (the requester and the bot itself).
pub open spec fn spec_owner(user_id: UserId) -> PermissionOverwrite {
    PermissionOverwrite {
        allow: ALL_VOICE_PERMISSIONS,
        deny: 0u64,
        kind: PermissionOverwriteType::Member(user_id.0),
    }
}

/// Create a [`PermissionOverwrite`] which allows every voice permission for
/// the given member.
pub fn owner(user_id: UserId) -> (r: PermissionOverwrite)
    ensures
        r == spec_owner(user_id),
{
    allow_all(PermissionOverwriteType::Member(user_id.0))
}

/// The merged overwrite list of a channel built from the given sources:
/// category overwrites, then preset overwrites, then the requester's
/// full-access overwrite, then the bot's own full-access overwrite.
pub open spec fn spec_merge(
    category: Seq<PermissionOverwrite>,
    preset: Seq<PermissionOverwrite>,
    creator: PermissionOverwrite,
    own: PermissionOverwrite,
) -> Seq<PermissionOverwrite> {
    category + preset + seq![creator, own]
}

/// The permission-overwrite sources of a channel being built, kept apart
/// until they are merged in the fixed authoritative order.
#[derive(Debug)]
pub struct ChannelBuilderPermissionOverwrites {
    pub own_permow: PermissionOverwrite,
    pub creator_permow: PermissionOverwrite,
    pub category_permows: Vec<PermissionOverwrite>,
    pub preset_permows: Vec<PermissionOverwrite>,
}

impl ChannelBuilderPermissionOverwrites {
    /// Collect the overwrite sources: the bot's and the requester's
    /// full-access overwrites, the category's overwrites (empty when the
    /// channel is built outside any category), and the preset's overwrites
    /// (empty when no preset was resolved).
    pub fn build(
        own_id: UserId,
        creator_id: UserId,
        category_permows: Vec<PermissionOverwrite>,
        preset_permows: Vec<PermissionOverwrite>,
    ) -> (r: ChannelBuilderPermissionOverwrites)
        ensures
            r.own_permow == spec_owner(own_id),
            r.creator_permow == spec_owner(creator_id),
            r.category_permows@ == category_permows@,
            r.preset_permows@ == preset_permows@,
    {
        ChannelBuilderPermissionOverwrites {
            own_permow: owner(own_id),
            creator_permow: owner(creator_id),
            category_permows,
            preset_permows,
        }
    }

    /// Merge all overwrites into a single ordered list: category first,
    /// then preset, then the requester's grant, then the bot's own grant.
    pub fn merge(self) -> (r: Vec<PermissionOverwrite>)
        ensures
            r@ == spec_merge(
                self.category_permows@,
                self.preset_permows@,
                self.creator_permow,
                self.own_permow,
            ),
    {
        let mut current = self;
        let mut result: Vec<PermissionOverwrite> = Vec::new();

        result.append(&mut current.category_permows);
        result.append(&mut current.preset_permows);
        result.push(current.creator_permow);
        result.push(current.own_permow);

        assert(result@ =~= spec_merge(
            self.category_permows@,
            self.preset_permows@,
            self.creator_permow,
            self.own_permow,
        ));
        result
    }
}

/// Merging with no category and no preset yields exactly the two mandatory
/// full-access overwrites: the requester's, and — last and therefore most
/// authoritative — the bot's own.
pub proof fn lemma_merge_defaults(creator: PermissionOverwrite, own: PermissionOverwrite)
    ensures
        spec_merge(Seq::<PermissionOverwrite>::empty(), Seq::<PermissionOverwrite>::empty(), creator, own).len() == 2,
        spec_merge(Seq::<PermissionOverwrite>::empty(), Seq::<PermissionOverwrite>::empty(), creator, own)[0] == creator,
        spec_merge(Seq::<PermissionOverwrite>::empty(), Seq::<PermissionOverwrite>::empty(), creator, own)[1] == own,
{
    assert(spec_merge(
        Seq::<PermissionOverwrite>::empty(),
        Seq::<PermissionOverwrite>::empty(),
        creator,
        own,
    ) =~= seq![creator, own]);
}

/// The merge preserves its sources in order for any combination of inputs:
/// the category overwrites stand first and in their original order, the
/// preset overwrites follow in their original order, then the requester's
/// overwrite, then the bot's own overwrite as the final entry.
pub proof fn lemma_merge_order(
    category: Seq<PermissionOverwrite>,
    preset: Seq<PermissionOverwrite>,
    creator: PermissionOverwrite,
    own: PermissionOverwrite,
)
    ensures
        spec_merge(category, preset, creator, own).len() == category.len() + preset.len() + 2,
        forall|i: int| 0 <= i < category.len()
            ==> spec_merge(category, preset, creator, own)[i] == category[i],
        forall|i: int| 0 <= i < preset.len()
            ==> spec_merge(category, preset, creator, own)[category.len() as int + i] == preset[i],
        spec_merge(category, preset, creator, own)[category.len() as int + preset.len() as int] == creator,
        spec_merge(category, preset, creator, own)[category.len() as int + preset.len() as int + 1] == own,
{
}

} // verus!
