//! The notifications that successful operations hand back, in the order in
//! which they are to be emitted.

use crate::records::VoteType;
use crate::tier::MemberRole;
use anchor_lang::prelude::Pubkey;
use vstd::prelude::*;

verus! {

/// A member record was created.
#[derive(Clone, Copy, Debug, PartialEq, Eq)]
pub struct MemberRegistered {
    pub identity: Pubkey,
    pub reputation: u64,
}

/// A vote was cast. `reputation_change` is the signed change that the
/// target's reputation actually underwent.
#[derive(Clone, Copy, Debug, PartialEq, Eq)]
pub struct MemberVoted {
    pub voter: Pubkey,
    pub target: Pubkey,
    pub vote_type: VoteType,
    pub reputation_change: i64,
}

/// A member was reset; `old_reputation` is the reputation it had before.
#[derive(Clone, Copy, Debug, PartialEq, Eq)]
pub struct ReputationReset {
    pub identity: Pubkey,
    pub old_reputation: u64,
}

/// The voting parameters were replaced by these values.
#[derive(Clone, Copy, Debug, PartialEq, Eq, Structural)]
pub struct ScoreboardUpdated {
    pub min_stake: u64,
    pub vote_cooldown: i64,
    pub reputation_multiplier: u8,
}

/// The authority granted a member `bonus_amount` of reputation.
#[derive(Debug, PartialEq, Eq)]
pub struct BonusAwarded {
    pub identity: Pubkey,
    pub bonus_amount: u64,
    pub reason: String,
}

/// A member's tier changed to `new_role`.
#[derive(Clone, Copy, Debug, PartialEq, Eq)]
pub struct RoleUpgraded {
    pub identity: Pubkey,
    pub new_role: MemberRole,
}

/// Any one notification.
#[derive(Debug, PartialEq, Eq)]
pub enum Notification {
    MemberRegistered(MemberRegistered),
    MemberVoted(MemberVoted),
    ReputationReset(ReputationReset),
    ScoreboardUpdated(ScoreboardUpdated),
    BonusAwarded(BonusAwarded),
    RoleUpgraded(RoleUpgraded),
}

} // verus!
