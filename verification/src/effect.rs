//! What a vote does to the target's reputation and to the scoreboard's total.

use crate::error::ReputationError;
use crate::records::VoteType;
use vstd::prelude::*;

verus! {

/// The numbers that a vote leaves behind.
#[derive(Clone, Copy, Debug, PartialEq, Eq, Structural)]
pub struct VoteEffect {
    /// The target's reputation after the vote.
    pub new_reputation: u64,
    /// The scoreboard's total after the vote.
    pub new_total: u64,
    /// The signed change of the target's reputation.
    pub delta: i64,
}

/// The weight of a vote: its amount times the scoreboard's multiplier.
pub open spec fn magnitude(amount: u64, multiplier: u8) -> int {
    amount * multiplier
}

/// The signed change that a vote makes to a reputation. An upvote adds the
/// magnitude. A downvote takes the magnitude away, but never more than the
/// reputation itself.
pub open spec fn signed_delta(vote_type: VoteType, amount: u64, multiplier: u8, reputation: u64) -> int {
    let m = magnitude(amount, multiplier);
    match vote_type {
        VoteType::Upvote => m,
        VoteType::Downvote => if m <= reputation { -m } else { -reputation },
    }
}

/// Every number that the vote produces fits its type: the magnitude, the new
/// reputation, the new total and the signed change.
pub open spec fn effect_fits(
    vote_type: VoteType,
    amount: u64,
    multiplier: u8,
    reputation: u64,
    total: u64,
) -> bool {
    let d = signed_delta(vote_type, amount, multiplier, reputation);
    &&& magnitude(amount, multiplier) <= u64::MAX
    &&& reputation + d <= u64::MAX
    &&& 0 <= total + d <= u64::MAX
    &&& i64::MIN <= d <= i64::MAX
}

/// The effect of a vote, where it fits.
pub open spec fn effect_of(
    vote_type: VoteType,
    amount: u64,
    multiplier: u8,
    reputation: u64,
    total: u64,
) -> VoteEffect
    recommends
        effect_fits(vote_type, amount, multiplier, reputation, total),
{
    let d = signed_delta(vote_type, amount, multiplier, reputation);
    VoteEffect {
        new_reputation: (reputation + d) as u64,
        new_total: (total + d) as u64,
        delta: d as i64,
    }
}

/// Computes the effect of a vote on a target with the given reputation, under
/// a scoreboard with the given multiplier and total. Fails with `Overflow`
/// exactly when some number of the effect does not fit its type.
pub fn vote_effect(
    vote_type: VoteType,
    amount: u64,
    multiplier: u8,
    reputation: u64,
    total: u64,
) -> (res: Result<VoteEffect, ReputationError>)
    ensures
        res is Ok <==> effect_fits(vote_type, amount, multiplier, reputation, total),
        res matches Ok(e) ==> e == effect_of(vote_type, amount, multiplier, reputation, total),
        res matches Err(e) ==> e == ReputationError::Overflow,
{
    let weight: u64 = match amount.checked_mul(multiplier as u64) {
        Some(w) => w,
        None => { return Err(ReputationError::Overflow); },
    };
    match vote_type {
        VoteType::Upvote => {
            let new_reputation: u64 = match reputation.checked_add(weight) {
                Some(r) => r,
                None => { return Err(ReputationError::Overflow); },
            };
            let new_total: u64 = match total.checked_add(weight) {
                Some(t) => t,
                None => { return Err(ReputationError::Overflow); },
            };
            if weight > i64::MAX as u64 {
                return Err(ReputationError::Overflow);
            }
            Ok(VoteEffect { new_reputation, new_total, delta: weight as i64 })
        },
        VoteType::Downvote => {
            let applied: u64 = if weight <= reputation { weight } else { reputation };
            let new_total: u64 = match total.checked_sub(applied) {
                Some(t) => t,
                None => { return Err(ReputationError::Overflow); },
            };
            let delta: i64 = if applied <= i64::MAX as u64 {
                -(applied as i64)
            } else if applied == 0x8000_0000_0000_0000u64 {
                i64::MIN
            } else {
                return Err(ReputationError::Overflow);
            };
            Ok(VoteEffect { new_reputation: reputation - applied, new_total, delta })
        },
    }
}

} // verus!
