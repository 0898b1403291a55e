//! Who may vote, and when: the stake threshold and the cooldown.

use crate::error::ReputationError;
use crate::records::{Member, Scoreboard};
use vstd::prelude::*;

verus! {

/// The stake reaches the scoreboard's minimum.
pub open spec fn stake_suffices(scoreboard: Scoreboard, stake: u64) -> bool {
    stake >= scoreboard.min_stake
}

/// At `now`, at least the cooldown has passed since the voter's last vote.
pub open spec fn cooldown_elapsed(scoreboard: Scoreboard, voter: Member, now: i64) -> bool {
    now - voter.last_vote_time >= scoreboard.vote_cooldown
}

/// The first condition of voting that fails, if one does: the stake is
/// looked at before the cooldown.
pub open spec fn ineligibility(
    scoreboard: Scoreboard,
    voter: Member,
    stake: u64,
    now: i64,
) -> Option<ReputationError> {
    if !stake_suffices(scoreboard, stake) {
        Some(ReputationError::InsufficientStake)
    } else if !cooldown_elapsed(scoreboard, voter, now) {
        Some(ReputationError::CooldownActive)
    } else {
        None
    }
}

/// Tests the stake threshold.
pub fn has_min_stake(scoreboard: &Scoreboard, stake: u64) -> (yes: bool)
    ensures
        yes == stake_suffices(*scoreboard, stake),
{
    stake >= scoreboard.min_stake
}

/// Tests the cooldown. The difference of the two times is taken exactly,
/// however far apart they are.
pub fn cooldown_over(scoreboard: &Scoreboard, voter: &Member, now: i64) -> (yes: bool)
    ensures
        yes == cooldown_elapsed(*scoreboard, *voter, now),
{
    let elapsed: i128 = now as i128 - voter.last_vote_time as i128;
    elapsed >= scoreboard.vote_cooldown as i128
}

/// Decides whether the voter may vote now with the given stake.
pub fn check_eligibility(scoreboard: &Scoreboard, voter: &Member, stake: u64, now: i64) -> (res: Result<
    (),
    ReputationError,
>)
    ensures
        res is Ok <==> ineligibility(*scoreboard, *voter, stake, now) is None,
        res matches Err(e) ==> ineligibility(*scoreboard, *voter, stake, now) == Some(e),
{
    if !has_min_stake(scoreboard, stake) {
        Err(ReputationError::InsufficientStake)
    } else if !cooldown_over(scoreboard, voter, now) {
        Err(ReputationError::CooldownActive)
    } else {
        Ok(())
    }
}

} // verus!
