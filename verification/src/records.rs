//! The two persistent records, the scoreboard and the member, and the kinds
//! of vote.

use crate::identity::keys_equal;
use crate::tier::{tier_of, MemberRole};
use anchor_lang::prelude::Pubkey;
use vstd::prelude::*;

verus! {

/// The direction of a vote.
#[derive(Clone, Copy, Debug, PartialEq, Eq, Structural)]
pub enum VoteType {
    Upvote,
    Downvote,
}

/// The single global record: the voting parameters and the running totals.
#[derive(Clone, Copy, Debug, PartialEq, Eq)]
pub struct Scoreboard {
    /// The identity that may perform administrative operations.
    pub authority: Pubkey,
    /// Least token balance a caller must hold to vote.
    pub min_stake: u64,
    /// Least number of seconds between two votes cast by one voter.
    pub vote_cooldown: i64,
    /// Factor applied to the amount of a vote.
    pub reputation_multiplier: u8,
    /// Number of registered members.
    pub total_members: u32,
    /// Sum of the reputations of all registered members.
    pub total_reputation: u64,
}

/// The record of one participant.
#[derive(Clone, Copy, Debug, PartialEq, Eq)]
pub struct Member {
    /// The participant's identity.
    pub identity: Pubkey,
    /// The participant's score.
    pub reputation: u64,
    /// Number of upvotes this member has cast.
    pub total_upvotes: u32,
    /// Number of downvotes this member has cast.
    pub total_downvotes: u32,
    /// Time of the last vote this member cast, in seconds.
    pub last_vote_time: i64,
    /// The tier that follows from `reputation`.
    pub tier: MemberRole,
}

impl Scoreboard {
    /// Whether `caller` is the authority of this scoreboard.
    pub fn is_authority(&self, caller: &Pubkey) -> (yes: bool)
        ensures
            yes == (self.authority == *caller),
    {
        keys_equal(&self.authority, caller)
    }
}

impl Member {
    /// The tier is the one that the reputation gives.
    pub open spec fn tier_consistent(&self) -> bool {
        self.tier == tier_of(self.reputation as nat)
    }
}

} // verus!
