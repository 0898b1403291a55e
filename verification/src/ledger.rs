//! The whole state that the operations act on, as a model: the scoreboard
//! and every member record, side by side. An operation sees one or two
//! records at a time; the model says what it does to all records together
//! when a host hands it the records it names and stores what comes back.
//! The model exists for reasoning only; nothing of it runs.

use crate::admin::{
    bonus_rejection, bonus_result, reset_rejection, reset_result, update_rejection, update_result,
    AwardBonus, ResetReputation, UpdateScoreboardParams,
};
use crate::error::ReputationError;
use crate::initialize::{initialize_rejection, initialize_result, InitializeScoreboard};
use crate::records::{Member, Scoreboard, VoteType};
use crate::register::{register_rejection, register_result, RegisterMember};
use crate::vote::{vote_rejection, vote_result, VoteMember};
use anchor_lang::prelude::Pubkey;
use vstd::prelude::*;

verus! {

/// The scoreboard, if it was created, and the member records in the order
/// of their registration.
pub struct Ledger {
    pub scoreboard: Option<Scoreboard>,
    pub members: Seq<Member>,
}

/// One operation, with the identities it names and the facts that the host
/// supplies to it.
pub enum Operation {
    Initialize { authority: Pubkey, min_stake: u64, vote_cooldown: i64, reputation_multiplier: u8 },
    Register { identity: Pubkey, initial_reputation: u64 },
    Vote { voter: Pubkey, target: Pubkey, vote_type: VoteType, amount: u64, stake: u64, now: i64 },
    Reset { caller: Pubkey, member: Pubkey },
    UpdateParams { caller: Pubkey, min_stake: u64, vote_cooldown: i64, reputation_multiplier: u8 },
    Bonus { caller: Pubkey, member: Pubkey, bonus_amount: u64 },
}

/// The sum of the reputations of the given members.
pub open spec fn sum_reputation(members: Seq<Member>) -> nat
    decreases members.len(),
{
    if members.len() == 0 {
        0
    } else {
        sum_reputation(members.drop_last()) + members.last().reputation as nat
    }
}

/// No two of the given members carry the same identity.
pub open spec fn distinct_identities(members: Seq<Member>) -> bool {
    forall|i: int, j: int|
        0 <= i < j < members.len() ==> (#[trigger] members[i]).identity != (
        #[trigger] members[j]).identity
}

/// The record at place `i` is the one of `identity`.
pub open spec fn holds(members: Seq<Member>, i: int, identity: Pubkey) -> bool {
    0 <= i < members.len() && members[i].identity == identity
}

/// The identity has a record among the given members.
pub open spec fn is_registered(members: Seq<Member>, identity: Pubkey) -> bool {
    exists|i: int| holds(members, i, identity)
}

/// The place of the record of a registered identity.
pub open spec fn position(members: Seq<Member>, identity: Pubkey) -> int
    recommends
        is_registered(members, identity),
{
    choose|i: int| holds(members, i, identity)
}

/// The members once `member` is stored under its identity: in the place of
/// that identity's record, or behind the others as a new record.
pub open spec fn store(members: Seq<Member>, member: Member) -> Seq<Member> {
    if is_registered(members, member.identity) {
        members.update(position(members, member.identity), member)
    } else {
        members.push(member)
    }
}

impl Ledger {
    /// The state before anything happened.
    pub open spec fn empty() -> Ledger {
        Ledger { scoreboard: None, members: Seq::empty() }
    }

    /// The record of an identity as the host hands it to an operation:
    /// `None` where the identity has none.
    pub open spec fn record(self, identity: Pubkey) -> Option<Member> {
        if is_registered(self.members, identity) {
            Some(self.members[position(self.members, identity)])
        } else {
            None
        }
    }

    /// What the host hands to the creation of the scoreboard.
    pub open spec fn initialize_context(self, authority: Pubkey) -> InitializeScoreboard {
        InitializeScoreboard { scoreboard: self.scoreboard, authority }
    }

    /// What the host hands to a registration.
    pub open spec fn register_context(self, identity: Pubkey) -> RegisterMember {
        RegisterMember { member: self.record(identity), identity, scoreboard: self.scoreboard }
    }

    /// What the host hands to a vote.
    pub open spec fn vote_context(self, voter: Pubkey, target: Pubkey, stake: u64, now: i64) -> VoteMember {
        VoteMember {
            voter: self.record(voter),
            target: self.record(target),
            scoreboard: self.scoreboard,
            voter_stake: stake,
            now,
        }
    }

    /// What the host hands to a reset.
    pub open spec fn reset_context(self, caller: Pubkey, member: Pubkey) -> ResetReputation {
        ResetReputation { member: self.record(member), scoreboard: self.scoreboard, authority: caller }
    }

    /// What the host hands to a change of parameters.
    pub open spec fn update_context(self, caller: Pubkey) -> UpdateScoreboardParams {
        UpdateScoreboardParams { scoreboard: self.scoreboard, authority: caller }
    }

    /// What the host hands to a bonus.
    pub open spec fn bonus_context(self, caller: Pubkey, member: Pubkey) -> AwardBonus {
        AwardBonus { member: self.record(member), scoreboard: self.scoreboard, authority: caller }
    }

    /// What holds of every state that the operations can reach: identities
    /// are keys, every member holds the tier of its reputation, no
    /// reputation is negative, and the scoreboard's totals are the number
    /// of members and the sum of their reputations. Without a scoreboard
    /// there are no members.
    pub open spec fn consistent(self) -> bool {
        &&& distinct_identities(self.members)
        &&& forall|i: int|
            0 <= i < self.members.len() ==> (#[trigger] self.members[i]).tier_consistent()
                && self.members[i].reputation >= 0
        &&& match self.scoreboard {
            Some(scoreboard) => scoreboard.total_reputation == sum_reputation(self.members)
                && scoreboard.total_members == self.members.len(),
            None => self.members.len() == 0,
        }
    }
}

/// Why the operation is refused in this state, if it is.
pub open spec fn rejection(ledger: Ledger, op: Operation) -> Option<ReputationError> {
    match op {
        Operation::Initialize { authority, .. } => initialize_rejection(
            ledger.initialize_context(authority),
        ),
        Operation::Register { identity, initial_reputation } => register_rejection(
            ledger.register_context(identity),
            initial_reputation,
        ),
        Operation::Vote { voter, target, vote_type, amount, stake, now } => vote_rejection(
            ledger.vote_context(voter, target, stake, now),
            vote_type,
            amount,
        ),
        Operation::Reset { caller, member } => reset_rejection(ledger.reset_context(caller, member)),
        Operation::UpdateParams { caller, .. } => update_rejection(ledger.update_context(caller)),
        Operation::Bonus { caller, member, bonus_amount } => bonus_rejection(
            ledger.bonus_context(caller, member),
            bonus_amount,
        ),
    }
}

/// The state after the operation. A refused operation leaves the state as
/// it was; of one that is carried out, the host stores the records that
/// come back, each under its identity.
pub open spec fn step(ledger: Ledger, op: Operation) -> Ledger {
    if rejection(ledger, op) is Some {
        ledger
    } else {
        match op {
            Operation::Initialize { authority, min_stake, vote_cooldown, reputation_multiplier } => {
                let after = initialize_result(
                    ledger.initialize_context(authority),
                    min_stake,
                    vote_cooldown,
                    reputation_multiplier,
                );
                Ledger { scoreboard: after.scoreboard, members: ledger.members }
            },
            Operation::Register { identity, initial_reputation } => {
                let after = register_result(ledger.register_context(identity), initial_reputation);
                Ledger {
                    scoreboard: after.scoreboard,
                    members: store(ledger.members, after.member->0),
                }
            },
            Operation::Vote { voter, target, vote_type, amount, stake, now } => {
                let after = vote_result(
                    ledger.vote_context(voter, target, stake, now),
                    vote_type,
                    amount,
                );
                Ledger {
                    scoreboard: after.scoreboard,
                    members: store(store(ledger.members, after.voter->0), after.target->0),
                }
            },
            Operation::Reset { caller, member } => {
                let after = reset_result(ledger.reset_context(caller, member));
                Ledger {
                    scoreboard: after.scoreboard,
                    members: store(ledger.members, after.member->0),
                }
            },
            Operation::UpdateParams { caller, min_stake, vote_cooldown, reputation_multiplier } => {
                let after = update_result(
                    ledger.update_context(caller),
                    min_stake,
                    vote_cooldown,
                    reputation_multiplier,
                );
                Ledger { scoreboard: after.scoreboard, members: ledger.members }
            },
            Operation::Bonus { caller, member, bonus_amount } => {
                let after = bonus_result(ledger.bonus_context(caller, member), bonus_amount);
                Ledger {
                    scoreboard: after.scoreboard,
                    members: store(ledger.members, after.member->0),
                }
            },
        }
    }
}

/// The state after a sequence of operations, one after the other.
pub open spec fn run(ledger: Ledger, ops: Seq<Operation>) -> Ledger
    decreases ops.len(),
{
    if ops.len() == 0 {
        ledger
    } else {
        step(run(ledger, ops.drop_last()), ops.last())
    }
}

/// Replacing one member changes the sum by the difference of the two
/// reputations.
pub proof fn lemma_sum_update(members: Seq<Member>, i: int, member: Member)
    requires
        0 <= i < members.len(),
    ensures
        sum_reputation(members.update(i, member)) == sum_reputation(members) - members[i].reputation
            + member.reputation,
    decreases members.len(),
{
    let updated = members.update(i, member);
    if i == members.len() - 1 {
        assert(updated.drop_last() =~= members.drop_last());
    } else {
        assert(updated.drop_last() =~= members.drop_last().update(i, member));
        lemma_sum_update(members.drop_last(), i, member);
    }
}

/// A new member adds its reputation to the sum.
pub proof fn lemma_sum_push(members: Seq<Member>, member: Member)
    ensures
        sum_reputation(members.push(member)) == sum_reputation(members) + member.reputation,
{
    assert(members.push(member).drop_last() =~= members);
}

/// No member has more reputation than all members together.
pub proof fn lemma_sum_bounds_each(members: Seq<Member>, i: int)
    requires
        0 <= i < members.len(),
    ensures
        members[i].reputation <= sum_reputation(members),
    decreases members.len(),
{
    if i < members.len() - 1 {
        lemma_sum_bounds_each(members.drop_last(), i);
    }
}

/// The place of a registered identity holds the record of that identity.
pub proof fn lemma_position_holds(members: Seq<Member>, identity: Pubkey)
    requires
        is_registered(members, identity),
    ensures
        holds(members, position(members, identity), identity),
{
}

/// Where identities are keys, the place of a member's identity is the place
/// of that member.
pub proof fn lemma_record_at(members: Seq<Member>, i: int)
    requires
        distinct_identities(members),
        0 <= i < members.len(),
    ensures
        is_registered(members, members[i].identity),
        position(members, members[i].identity) == i,
{
    let identity = members[i].identity;
    assert(holds(members, i, identity));
    let p = position(members, identity);
    if p < i {
        assert(members[p].identity != members[i].identity);
    } else if i < p {
        assert(members[i].identity != members[p].identity);
    }
}

/// Storing a record under a registered identity replaces that identity's
/// record and nothing else: identities stay keys, and the sum moves by the
/// difference of the two reputations.
pub proof fn lemma_store_replaces(members: Seq<Member>, member: Member)
    requires
        distinct_identities(members),
        is_registered(members, member.identity),
    ensures
        store(members, member) == members.update(position(members, member.identity), member),
        distinct_identities(store(members, member)),
        sum_reputation(store(members, member)) == sum_reputation(members) - members[position(
            members,
            member.identity,
        )].reputation + member.reputation,
{
    let p = position(members, member.identity);
    lemma_sum_update(members, p, member);
    let after = store(members, member);
    assert forall|i: int, j: int| 0 <= i < j < after.len() implies (#[trigger] after[i]).identity != (
    #[trigger] after[j]).identity by {
        assert(after[i].identity == members[i].identity);
        assert(after[j].identity == members[j].identity);
    }
}

/// Storing a record under an identity that is not registered puts it behind
/// the others: identities stay keys, and the sum grows by its reputation.
pub proof fn lemma_store_appends(members: Seq<Member>, member: Member)
    requires
        distinct_identities(members),
        !is_registered(members, member.identity),
    ensures
        store(members, member) == members.push(member),
        distinct_identities(store(members, member)),
        sum_reputation(store(members, member)) == sum_reputation(members) + member.reputation,
{
    lemma_sum_push(members, member);
    let after = store(members, member);
    assert forall|i: int, j: int| 0 <= i < j < after.len() implies (#[trigger] after[i]).identity != (
    #[trigger] after[j]).identity by {
        if j == members.len() {
            assert(!holds(members, i, member.identity));
        } else {
            assert(after[i] == members[i] && after[j] == members[j]);
        }
    }
}

/// What an operation does to the members, place by place. A registration
/// that is carried out puts the new member behind the others; a vote
/// replaces the voter's and the target's record, a reset or a bonus the
/// member's record, each in its place; anything else leaves the members as
/// they were. Identities stay keys, and the sum of the reputations moves by
/// what the reputation of the one member moved whose reputation changed.
pub proof fn lemma_step_members(ledger: Ledger, op: Operation)
    requires
        distinct_identities(ledger.members),
    ensures
        distinct_identities(step(ledger, op).members),
        rejection(ledger, op) is Some ==> step(ledger, op).members == ledger.members,
        rejection(ledger, op) is None ==> match op {
            Operation::Register { identity, initial_reputation } => {
                &&& !is_registered(ledger.members, identity)
                &&& step(ledger, op).members == ledger.members.push(
                    register_result(ledger.register_context(identity), initial_reputation).member->0,
                )
            },
            Operation::Vote { voter, target, vote_type, amount, stake, now } => {
                let after = vote_result(ledger.vote_context(voter, target, stake, now), vote_type, amount);
                &&& holds(ledger.members, position(ledger.members, voter), voter)
                &&& holds(ledger.members, position(ledger.members, target), target)
                &&& step(ledger, op).members == ledger.members.update(
                    position(ledger.members, voter),
                    after.voter->0,
                ).update(position(ledger.members, target), after.target->0)
            },
            Operation::Reset { caller, member } => {
                &&& holds(ledger.members, position(ledger.members, member), member)
                &&& step(ledger, op).members == ledger.members.update(
                    position(ledger.members, member),
                    reset_result(ledger.reset_context(caller, member)).member->0,
                )
            },
            Operation::Bonus { caller, member, bonus_amount } => {
                &&& holds(ledger.members, position(ledger.members, member), member)
                &&& step(ledger, op).members == ledger.members.update(
                    position(ledger.members, member),
                    bonus_result(ledger.bonus_context(caller, member), bonus_amount).member->0,
                )
            },
            _ => step(ledger, op).members == ledger.members,
        },
        rejection(ledger, op) is None ==> sum_reputation(
            step(ledger, op).members,
        ) - sum_reputation(ledger.members) == match op {
            Operation::Register { initial_reputation, .. } => initial_reputation as int,
            Operation::Vote { voter, target, vote_type, amount, stake, now } => {
                let context = ledger.vote_context(voter, target, stake, now);
                vote_result(context, vote_type, amount).target->0.reputation
                    - context.subject().reputation
            },
            Operation::Reset { member, .. } => -(ledger.record(member)->0.reputation as int),
            Operation::Bonus { bonus_amount, .. } => bonus_amount as int,
            _ => 0,
        },
{
    let members = ledger.members;
    if rejection(ledger, op) is None {
        match op {
            Operation::Register { identity, initial_reputation } => {
                lemma_store_appends(
                    members,
                    register_result(ledger.register_context(identity), initial_reputation).member->0,
                );
            },
            Operation::Vote { voter, target, vote_type, amount, stake, now } => {
                let after = vote_result(ledger.vote_context(voter, target, stake, now), vote_type, amount);
                let t = position(members, target);
                let cast = store(members, after.voter->0);
                lemma_store_replaces(members, after.voter->0);
                assert(cast[t].identity == target);
                lemma_record_at(cast, t);
                lemma_store_replaces(cast, after.target->0);
            },
            Operation::Reset { caller, member } => {
                lemma_store_replaces(members, reset_result(ledger.reset_context(caller, member)).member->0);
            },
            Operation::Bonus { caller, member, bonus_amount } => {
                lemma_store_replaces(
                    members,
                    bonus_result(ledger.bonus_context(caller, member), bonus_amount).member->0,
                );
            },
            _ => {},
        }
    }
}

} // verus!
