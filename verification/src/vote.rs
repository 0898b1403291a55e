//! Casting a vote: one member raises or lowers the reputation of another.

use crate::effect::{effect_fits, effect_of, magnitude, vote_effect};
use crate::eligibility::{check_eligibility, ineligibility, stake_suffices};
use crate::error::ReputationError;
use crate::events::{MemberVoted, Notification};
use crate::identity::keys_equal;
use crate::records::{Member, Scoreboard, VoteType};
use crate::tier::{check_role_upgrade, upgrade_of, with_reputation};
use vstd::prelude::*;

verus! {

/// What a vote works on: the record of the voter, the record of the target
/// and the scoreboard, each as the host holds it (`None` where there is no
/// such record), with the voter's token balance and the current time in
/// seconds.
///
/// Identities are keys: where voter and target carry the same identity, they
/// are one member, and `voter` is that member's record.
#[derive(Clone, Copy, Debug, PartialEq, Eq)]
pub struct VoteMember {
    pub voter: Option<Member>,
    pub target: Option<Member>,
    pub scoreboard: Option<Scoreboard>,
    pub voter_stake: u64,
    pub now: i64,
}

impl VoteMember {
    /// The three records exist.
    pub open spec fn resolved(self) -> bool {
        self.voter is Some && self.target is Some && self.scoreboard is Some
    }

    /// The voter votes on itself.
    pub open spec fn self_vote(self) -> bool {
        self.voter->0.identity == self.target->0.identity
    }

    /// The record whose reputation the vote changes.
    pub open spec fn subject(self) -> Member {
        if self.self_vote() {
            self.voter->0
        } else {
            self.target->0
        }
    }
}

/// The voter's counter for this kind of vote can still go up by one.
pub open spec fn counter_fits(voter: Member, vote_type: VoteType) -> bool {
    match vote_type {
        VoteType::Upvote => voter.total_upvotes < u32::MAX,
        VoteType::Downvote => voter.total_downvotes < u32::MAX,
    }
}

/// The voter's record once the vote is cast: the counter for this kind of
/// vote is one higher, and the time of the last vote is `now`.
pub open spec fn voter_after_cast(voter: Member, vote_type: VoteType, now: i64) -> Member {
    match vote_type {
        VoteType::Upvote => Member {
            total_upvotes: (voter.total_upvotes + 1) as u32,
            last_vote_time: now,
            ..voter
        },
        VoteType::Downvote => Member {
            total_downvotes: (voter.total_downvotes + 1) as u32,
            last_vote_time: now,
            ..voter
        },
    }
}

/// Why the vote is refused, if it is. A missing record comes first, then the
/// stake, then the cooldown, then a number that does not fit.
pub open spec fn vote_rejection(ctx: VoteMember, vote_type: VoteType, amount: u64) -> Option<
    ReputationError,
> {
    if !ctx.resolved() {
        Some(ReputationError::NotFound)
    } else {
        let scoreboard = ctx.scoreboard->0;
        let voter = ctx.voter->0;
        if ineligibility(scoreboard, voter, ctx.voter_stake, ctx.now) is Some {
            ineligibility(scoreboard, voter, ctx.voter_stake, ctx.now)
        } else if !counter_fits(voter, vote_type) || !effect_fits(
            vote_type,
            amount,
            scoreboard.reputation_multiplier,
            ctx.subject().reputation,
            scoreboard.total_reputation,
        ) {
            Some(ReputationError::Overflow)
        } else {
            None
        }
    }
}

/// The records after a vote that is not refused.
pub open spec fn vote_result(ctx: VoteMember, vote_type: VoteType, amount: u64) -> VoteMember
    recommends
        vote_rejection(ctx, vote_type, amount) is None,
{
    let scoreboard = ctx.scoreboard->0;
    let effect = effect_of(
        vote_type,
        amount,
        scoreboard.reputation_multiplier,
        ctx.subject().reputation,
        scoreboard.total_reputation,
    );
    let cast = voter_after_cast(ctx.voter->0, vote_type, ctx.now);
    let voted_on = with_reputation(
        if ctx.self_vote() {
            cast
        } else {
            ctx.target->0
        },
        effect.new_reputation,
    );
    VoteMember {
        voter: Some(
            if ctx.self_vote() {
                voted_on
            } else {
                cast
            },
        ),
        target: Some(voted_on),
        scoreboard: Some(Scoreboard { total_reputation: effect.new_total, ..scoreboard }),
        ..ctx
    }
}

/// The notifications of a vote that is not refused: the change of tier, if
/// the target's tier changed, and then the vote itself with the change of
/// reputation that was actually applied.
pub open spec fn vote_notifications(ctx: VoteMember, vote_type: VoteType, amount: u64) -> Seq<
    Notification,
>
    recommends
        vote_rejection(ctx, vote_type, amount) is None,
{
    let scoreboard = ctx.scoreboard->0;
    let effect = effect_of(
        vote_type,
        amount,
        scoreboard.reputation_multiplier,
        ctx.subject().reputation,
        scoreboard.total_reputation,
    );
    let voted = Notification::MemberVoted(
        MemberVoted {
            voter: ctx.voter->0.identity,
            target: ctx.target->0.identity,
            vote_type,
            reputation_change: effect.delta,
        },
    );
    match upgrade_of(Member { reputation: effect.new_reputation, ..ctx.subject() }) {
        Some(upgrade) => seq![Notification::RoleUpgraded(upgrade), voted],
        None => seq![voted],
    }
}

/// Casts a vote of `amount` by `ctx.voter` on `ctx.target`.
///
/// The vote is refused, and nothing changes, exactly when `vote_rejection`
/// names an error; that error is returned. Otherwise the records become
/// those of `vote_result` and the notifications of `vote_notifications` are
/// returned.
pub fn vote_member(ctx: &mut VoteMember, vote_type: VoteType, amount: u64) -> (res: Result<
    Vec<Notification>,
    ReputationError,
>)
    ensures
        res is Err <==> vote_rejection(*old(ctx), vote_type, amount) is Some,
        res matches Err(e) ==> vote_rejection(*old(ctx), vote_type, amount) == Some(e) && *final(ctx)
            == *old(ctx),
        res matches Ok(events) ==> *final(ctx) == vote_result(*old(ctx), vote_type, amount)
            && events@ == vote_notifications(*old(ctx), vote_type, amount),
        res is Ok ==> final(ctx).target->0.tier_consistent(),
        res is Ok && old(ctx).voter->0.tier_consistent() ==> final(ctx).voter->0.tier_consistent(),
{
    let (mut voter, target, mut scoreboard) = match (ctx.voter, ctx.target, ctx.scoreboard) {
        (Some(voter), Some(target), Some(scoreboard)) => (voter, target, scoreboard),
        _ => { return Err(ReputationError::NotFound); },
    };
    match check_eligibility(&scoreboard, &voter, ctx.voter_stake, ctx.now) {
        Ok(()) => {},
        Err(e) => { return Err(e); },
    }
    match vote_type {
        VoteType::Upvote => {
            voter.total_upvotes = match voter.total_upvotes.checked_add(1) {
                Some(n) => n,
                None => { return Err(ReputationError::Overflow); },
            };
        },
        VoteType::Downvote => {
            voter.total_downvotes = match voter.total_downvotes.checked_add(1) {
                Some(n) => n,
                None => { return Err(ReputationError::Overflow); },
            };
        },
    }
    voter.last_vote_time = ctx.now;
    let self_vote = keys_equal(&voter.identity, &target.identity);
    let mut voted_on = if self_vote { voter } else { target };
    let effect = match vote_effect(
        vote_type,
        amount,
        scoreboard.reputation_multiplier,
        voted_on.reputation,
        scoreboard.total_reputation,
    ) {
        Ok(effect) => effect,
        Err(e) => { return Err(e); },
    };
    voted_on.reputation = effect.new_reputation;
    scoreboard.total_reputation = effect.new_total;
    let upgrade = check_role_upgrade(&mut voted_on);
    let mut events: Vec<Notification> = Vec::new();
    match upgrade {
        Some(upgrade) => { events.push(Notification::RoleUpgraded(upgrade)); },
        None => {},
    }
    events.push(
        Notification::MemberVoted(
            MemberVoted {
                voter: voter.identity,
                target: target.identity,
                vote_type,
                reputation_change: effect.delta,
            },
        ),
    );
    ctx.voter = Some(if self_vote { voted_on } else { voter });
    ctx.target = Some(voted_on);
    ctx.scoreboard = Some(scoreboard);
    Ok(events)
}

/// What a vote that is not refused leaves behind. The target's reputation
/// goes up by the magnitude, or down by it but not below zero; the
/// scoreboard's total moves by exactly as much as that reputation did; the
/// target holds the tier of its new reputation; and the voter's last vote
/// is dated `now`.
pub proof fn lemma_vote_outcome(ctx: VoteMember, vote_type: VoteType, amount: u64)
    requires
        vote_rejection(ctx, vote_type, amount) is None,
    ensures
        ({
            let after = vote_result(ctx, vote_type, amount);
            let weight = magnitude(amount, ctx.scoreboard->0.reputation_multiplier);
            let before = ctx.subject().reputation;
            &&& after.target->0.reputation == match vote_type {
                VoteType::Upvote => before + weight,
                VoteType::Downvote => if weight >= before {
                    0
                } else {
                    before - weight
                },
            }
            &&& after.scoreboard->0.total_reputation - ctx.scoreboard->0.total_reputation
                == after.target->0.reputation - before
            &&& after.target->0.tier_consistent()
            &&& after.voter->0.last_vote_time == ctx.now
            &&& after.voter->0.identity == ctx.voter->0.identity
            &&& after.target->0.identity == ctx.target->0.identity
        }),
{
}

/// After a vote, the voter's next vote is refused with `CooldownActive` for
/// as long as less than the cooldown has passed, whatever the target, the
/// kind and the amount, provided the records exist and the stake suffices.
pub proof fn lemma_cooldown_blocks_next_vote(
    first: VoteMember,
    first_type: VoteType,
    first_amount: u64,
    next: VoteMember,
    next_type: VoteType,
    next_amount: u64,
)
    requires
        vote_rejection(first, first_type, first_amount) is None,
        next.voter == vote_result(first, first_type, first_amount).voter,
        next.resolved(),
        stake_suffices(next.scoreboard->0, next.voter_stake),
        next.now - first.now < next.scoreboard->0.vote_cooldown,
    ensures
        vote_rejection(next, next_type, next_amount) == Some(ReputationError::CooldownActive),
{
}

} // verus!
