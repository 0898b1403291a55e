//! The tiers a member can hold, and the rule that assigns one to a score.

use crate::events::RoleUpgraded;
use crate::records::Member;
use vstd::prelude::*;

verus! {

/// The classification of a member, from lowest to highest.
#[derive(Clone, Copy, Debug, PartialEq, Eq, PartialOrd, Ord, Hash, Structural)]
pub enum MemberRole {
    Member,
    Contributor,
    Moderator,
    Admin,
}

/// The tiers with the least reputation that each admits, from the highest
/// tier down. The last floor is zero, so every reputation reaches one.
pub const TIER_TABLE: [(u64, MemberRole); 4] = [
    (1000, MemberRole::Admin),
    (500, MemberRole::Moderator),
    (100, MemberRole::Contributor),
    (0, MemberRole::Member),
];

/// The least reputation that a tier admits.
pub open spec fn floor_of(role: MemberRole) -> nat {
    match role {
        MemberRole::Member => 0,
        MemberRole::Contributor => 100,
        MemberRole::Moderator => 500,
        MemberRole::Admin => 1000,
    }
}

/// The tier that a reputation falls in: the highest one whose floor it
/// reaches.
pub open spec fn tier_of(reputation: nat) -> MemberRole {
    if reputation >= floor_of(MemberRole::Admin) {
        MemberRole::Admin
    } else if reputation >= floor_of(MemberRole::Moderator) {
        MemberRole::Moderator
    } else if reputation >= floor_of(MemberRole::Contributor) {
        MemberRole::Contributor
    } else {
        MemberRole::Member
    }
}

/// Computes the tier of a reputation: that of the first entry of the table
/// whose floor the reputation reaches.
pub fn classify(reputation: u64) -> (role: MemberRole)
    ensures
        role == tier_of(reputation as nat),
{
    let table = TIER_TABLE;
    let mut i: usize = 0;
    while i < table.len()
        invariant
            i <= table.len(),
            table == TIER_TABLE,
            forall|j: int| 0 <= j < i ==> reputation < (#[trigger] table[j]).0,
        decreases table.len() - i,
    {
        if reputation >= table[i].0 {
            return table[i].1;
        }
        i += 1;
    }
    // Not reached: the last floor is zero.
    MemberRole::Member
}

/// Each entry of the table pairs a tier with its floor, and the floors
/// fall from entry to entry down to zero.
pub proof fn lemma_table_lists_floors()
    ensures
        forall|i: int|
            0 <= i < TIER_TABLE@.len() ==> (#[trigger] TIER_TABLE@[i]).0 == floor_of(TIER_TABLE@[i].1),
        forall|i: int, j: int|
            0 <= i < j < TIER_TABLE@.len() ==> (#[trigger] TIER_TABLE@[i]).0 > (
            #[trigger] TIER_TABLE@[j]).0,
        TIER_TABLE@[TIER_TABLE@.len() - 1].0 == 0,
{
}

/// The member with its tier brought in line with its reputation.
pub open spec fn with_tier_recomputed(member: Member) -> Member {
    Member { tier: tier_of(member.reputation as nat), ..member }
}

/// A record once it holds the given reputation, with the tier that this
/// reputation gives.
pub open spec fn with_reputation(member: Member, reputation: u64) -> Member {
    Member { reputation, tier: tier_of(reputation as nat), ..member }
}

/// The notification that recomputing the member's tier gives rise to: one
/// exactly when the tier it holds is not the one its reputation gives.
pub open spec fn upgrade_of(member: Member) -> Option<RoleUpgraded> {
    if member.tier != tier_of(member.reputation as nat) {
        Some(RoleUpgraded { identity: member.identity, new_role: tier_of(member.reputation as nat) })
    } else {
        None
    }
}

/// Recomputes the member's tier from its reputation, and reports the new
/// tier where it differs from the one held before.
pub fn check_role_upgrade(member: &mut Member) -> (upgrade: Option<RoleUpgraded>)
    ensures
        *final(member) == with_tier_recomputed(*old(member)),
        upgrade == upgrade_of(*old(member)),
{
    let new_role = classify(member.reputation);
    if new_role != member.tier {
        member.tier = new_role;
        Some(RoleUpgraded { identity: member.identity, new_role })
    } else {
        None
    }
}

/// Every reputation falls in exactly one tier: the one whose floor it
/// reaches while staying below the floor of the next.
pub proof fn lemma_tiers_partition(reputation: nat, role: MemberRole)
    ensures
        tier_of(reputation) == role <==> (floor_of(role) <= reputation && match role {
            MemberRole::Member => reputation < floor_of(MemberRole::Contributor),
            MemberRole::Contributor => reputation < floor_of(MemberRole::Moderator),
            MemberRole::Moderator => reputation < floor_of(MemberRole::Admin),
            MemberRole::Admin => true,
        }),
{
}

/// A higher reputation never gives a lower tier.
pub proof fn lemma_tier_monotone(lower: nat, higher: nat)
    requires
        lower <= higher,
    ensures
        floor_of(tier_of(lower)) <= floor_of(tier_of(higher)),
{
}

} // verus!
