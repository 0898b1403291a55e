//! What stays true of the whole state, whatever operations are run on it.
//! The laws speak of the model of the state and of the same rejections and
//! results that the contracts of the operations speak of.

use crate::error::ReputationError;
use crate::ledger::{
    holds, is_registered, lemma_position_holds, lemma_record_at, lemma_step_members, lemma_sum_bounds_each,
    position, rejection, run, step, Ledger, Operation,
};
use anchor_lang::prelude::Pubkey;
use vstd::prelude::*;

verus! {

/// Before anything happened the state is consistent.
pub proof fn lemma_empty_is_consistent()
    ensures
        Ledger::empty().consistent(),
{
}

/// Every operation keeps the state consistent, whether it is carried out
/// or refused: after it the scoreboard's total is still the sum of the
/// members' reputations, its count is still the number of members, no
/// reputation is negative, and every member still holds the tier of its
/// reputation.
pub proof fn lemma_step_keeps_consistent(ledger: Ledger, op: Operation)
    requires
        ledger.consistent(),
    ensures
        step(ledger, op).consistent(),
{
    lemma_step_members(ledger, op);
    if rejection(ledger, op) is None {
        match op {
            Operation::Reset { member, .. } => {
                lemma_sum_bounds_each(ledger.members, position(ledger.members, member));
            },
            _ => {},
        }
    }
}

/// Whatever sequence of operations is run from a consistent state, the
/// state is consistent after each one of them.
pub proof fn lemma_run_keeps_consistent(ledger: Ledger, ops: Seq<Operation>, done: int)
    requires
        ledger.consistent(),
        0 <= done <= ops.len(),
    ensures
        run(ledger, ops.take(done)).consistent(),
    decreases done,
{
    if done > 0 {
        lemma_run_keeps_consistent(ledger, ops, done - 1);
        assert(ops.take(done).drop_last() =~= ops.take(done - 1));
        lemma_step_keeps_consistent(run(ledger, ops.take(done - 1)), ops[done - 1]);
    }
}

/// Every state that a sequence of operations reaches from the state before
/// anything happened is consistent.
pub proof fn lemma_reachable_is_consistent(ops: Seq<Operation>)
    ensures
        run(Ledger::empty(), ops).consistent(),
{
    lemma_run_keeps_consistent(Ledger::empty(), ops, ops.len() as int);
    assert(ops.take(ops.len() as int) =~= ops);
}

/// A refused operation leaves every record as it was.
pub proof fn lemma_refused_changes_nothing(ledger: Ledger, op: Operation)
    requires
        rejection(ledger, op) is Some,
    ensures
        step(ledger, op) == ledger,
{
}

/// No operation removes a member or gives a record another identity, and
/// the number of members grows, by one, exactly when a registration is
/// carried out.
pub proof fn lemma_members_stay(ledger: Ledger, op: Operation)
    requires
        ledger.consistent(),
    ensures
        step(ledger, op).members.len() == ledger.members.len() + (if op is Register && rejection(
            ledger,
            op,
        ) is None {
            1int
        } else {
            0int
        }),
        forall|i: int|
            0 <= i < ledger.members.len() ==> (#[trigger] step(ledger, op).members[i]).identity
                == ledger.members[i].identity,
        forall|identity: Pubkey|
            is_registered(ledger.members, identity) ==> #[trigger] is_registered(
                step(ledger, op).members,
                identity,
            ),
{
    lemma_step_members(ledger, op);
    let before = ledger.members;
    let after = step(ledger, op).members;
    assert forall|identity: Pubkey| is_registered(before, identity) implies #[trigger] is_registered(
        after,
        identity,
    ) by {
        let p = position(before, identity);
        lemma_position_holds(before, identity);
        assert(after[p].identity == before[p].identity);
        assert(holds(after, p, identity));
    }
}

/// Once there is a scoreboard there always is one, and its authority never
/// changes. Its voting parameters change only when a change of parameters
/// is carried out.
pub proof fn lemma_scoreboard_stays(ledger: Ledger, op: Operation)
    requires
        ledger.scoreboard is Some,
    ensures
        step(ledger, op).scoreboard is Some,
        step(ledger, op).scoreboard->0.authority == ledger.scoreboard->0.authority,
        !(op is UpdateParams && rejection(ledger, op) is None) ==> {
            let before = ledger.scoreboard->0;
            let after = step(ledger, op).scoreboard->0;
            &&& after.min_stake == before.min_stake
            &&& after.vote_cooldown == before.vote_cooldown
            &&& after.reputation_multiplier == before.reputation_multiplier
        },
{
}

/// Where the cooldown is not negative, no operation moves the time of a
/// member's last vote backwards.
pub proof fn lemma_last_vote_time_never_decreases(ledger: Ledger, op: Operation)
    requires
        ledger.consistent(),
        ledger.scoreboard matches Some(scoreboard) ==> scoreboard.vote_cooldown >= 0,
    ensures
        forall|i: int|
            0 <= i < ledger.members.len() ==> (#[trigger] step(ledger, op).members[i]).last_vote_time
                >= ledger.members[i].last_vote_time,
{
    lemma_step_members(ledger, op);
}

/// The counters of the votes a member has cast never fall, except when
/// that member is reset.
pub proof fn lemma_counters_fall_only_by_reset(ledger: Ledger, op: Operation)
    requires
        ledger.consistent(),
    ensures
        forall|i: int|
            0 <= i < ledger.members.len() ==> {
                ||| {
                    &&& (#[trigger] step(ledger, op).members[i]).total_upvotes
                        >= ledger.members[i].total_upvotes
                    &&& step(ledger, op).members[i].total_downvotes
                        >= ledger.members[i].total_downvotes
                }
                ||| {
                    &&& op matches Operation::Reset { member, .. }
                    &&& rejection(ledger, op) is None
                    &&& ledger.members[i].identity == member
                }
            },
{
    lemma_step_members(ledger, op);
}

/// A member who has just voted cannot vote again before the cooldown is
/// over: a second vote by the same voter, with enough stake and on a
/// registered target, at a time less than the cooldown after the first, is
/// refused with `CooldownActive` and changes nothing.
pub proof fn lemma_cooldown_enforced(ledger: Ledger, first: Operation, second: Operation)
    requires
        ledger.consistent(),
        first is Vote,
        second is Vote,
        rejection(ledger, first) is None,
        second->Vote_voter == first->Vote_voter,
        is_registered(ledger.members, second->Vote_target),
        second->Vote_stake >= ledger.scoreboard->0.min_stake,
        second->Vote_now - first->Vote_now < ledger.scoreboard->0.vote_cooldown,
    ensures
        rejection(step(ledger, first), second) == Some(ReputationError::CooldownActive),
        step(step(ledger, first), second) == step(ledger, first),
{
    lemma_step_members(ledger, first);
    lemma_members_stay(ledger, first);
    lemma_record_at(step(ledger, first).members, position(ledger.members, first->Vote_voter));
}

/// Registering an identity that has just been registered is refused with
/// `AlreadyRegistered` and changes nothing.
pub proof fn lemma_registered_twice_is_refused(
    ledger: Ledger,
    identity: Pubkey,
    first_reputation: u64,
    second_reputation: u64,
)
    requires
        rejection(ledger, Operation::Register { identity, initial_reputation: first_reputation })
            is None,
    ensures
        rejection(
            step(ledger, Operation::Register { identity, initial_reputation: first_reputation }),
            Operation::Register { identity, initial_reputation: second_reputation },
        ) == Some(ReputationError::AlreadyRegistered),
        step(
            step(ledger, Operation::Register { identity, initial_reputation: first_reputation }),
            Operation::Register { identity, initial_reputation: second_reputation },
        ) == step(ledger, Operation::Register { identity, initial_reputation: first_reputation }),
{
    let after = step(ledger, Operation::Register { identity, initial_reputation: first_reputation });
    assert(holds(after.members, ledger.members.len() as int, identity));
}

/// Where there is a scoreboard, a reset, a change of parameters or a bonus
/// by anyone but its authority is refused with `Unauthorized` and changes
/// nothing.
pub proof fn lemma_only_authority_administers(ledger: Ledger, op: Operation)
    requires
        ledger.scoreboard is Some,
        match op {
            Operation::Reset { caller, .. } => caller != ledger.scoreboard->0.authority,
            Operation::UpdateParams { caller, .. } => caller != ledger.scoreboard->0.authority,
            Operation::Bonus { caller, .. } => caller != ledger.scoreboard->0.authority,
            _ => false,
        },
    ensures
        rejection(ledger, op) == Some(ReputationError::Unauthorized),
        step(ledger, op) == ledger,
{
}

} // verus!
