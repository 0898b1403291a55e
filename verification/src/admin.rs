//! The operations reserved to the scoreboard's authority: resetting a
//! member, replacing the voting parameters, and awarding a bonus.

use crate::error::ReputationError;
use crate::events::{BonusAwarded, Notification, ReputationReset, ScoreboardUpdated};
use crate::records::{Member, Scoreboard};
use crate::tier::{check_role_upgrade, upgrade_of, with_reputation, MemberRole};
use anchor_lang::prelude::Pubkey;
use vstd::prelude::*;

verus! {

/// What a reset works on: the member, the scoreboard, and the identity of
/// the caller. A record is `None` where the host holds none.
#[derive(Clone, Copy, Debug, PartialEq, Eq)]
pub struct ResetReputation {
    pub member: Option<Member>,
    pub scoreboard: Option<Scoreboard>,
    pub authority: Pubkey,
}

/// What a change of parameters works on: the scoreboard, `None` where the
/// host holds none, and the identity of the caller.
#[derive(Clone, Copy, Debug, PartialEq, Eq)]
pub struct UpdateScoreboardParams {
    pub scoreboard: Option<Scoreboard>,
    pub authority: Pubkey,
}

/// What a bonus works on: the member, the scoreboard, and the identity of
/// the caller. A record is `None` where the host holds none.
#[derive(Clone, Copy, Debug, PartialEq, Eq)]
pub struct AwardBonus {
    pub member: Option<Member>,
    pub scoreboard: Option<Scoreboard>,
    pub authority: Pubkey,
}

/// Why an operation of the authority on a member is refused before it looks
/// at any number: there is no scoreboard, or the caller is not its
/// authority, or there is no such member. The caller is looked at before
/// the member.
pub open spec fn admin_refusal(
    member: Option<Member>,
    scoreboard: Option<Scoreboard>,
    caller: Pubkey,
) -> Option<ReputationError> {
    if scoreboard is None {
        Some(ReputationError::NotFound)
    } else if caller != scoreboard->0.authority {
        Some(ReputationError::Unauthorized)
    } else if member is None {
        Some(ReputationError::NotFound)
    } else {
        None
    }
}

/// Lets the authority through to a member: hands back the two records
/// where both exist and the caller is the scoreboard's authority.
fn authorize(member: Option<Member>, scoreboard: Option<Scoreboard>, caller: &Pubkey) -> (res: Result<
    (Member, Scoreboard),
    ReputationError,
>)
    ensures
        res is Err <==> admin_refusal(member, scoreboard, *caller) is Some,
        res matches Err(e) ==> admin_refusal(member, scoreboard, *caller) == Some(e),
        res matches Ok(records) ==> member == Some(records.0) && scoreboard == Some(records.1),
{
    let scoreboard = match scoreboard {
        Some(scoreboard) => scoreboard,
        None => { return Err(ReputationError::NotFound); },
    };
    if !scoreboard.is_authority(caller) {
        return Err(ReputationError::Unauthorized);
    }
    match member {
        Some(member) => Ok((member, scoreboard)),
        None => Err(ReputationError::NotFound),
    }
}

/// Why a reset is refused, if it is.
pub open spec fn reset_rejection(ctx: ResetReputation) -> Option<ReputationError> {
    admin_refusal(ctx.member, ctx.scoreboard, ctx.authority)
}

/// A member after a reset: no reputation, no votes counted, the lowest
/// tier. Its identity and the time of its last vote stay.
pub open spec fn member_reset(member: Member) -> Member {
    Member {
        reputation: 0,
        total_upvotes: 0,
        total_downvotes: 0,
        tier: MemberRole::Member,
        ..member
    }
}

/// The records after a reset that is not refused. The total goes down by
/// the reputation that the member had, and stops at zero.
pub open spec fn reset_result(ctx: ResetReputation) -> ResetReputation
    recommends
        reset_rejection(ctx) is None,
{
    let member = ctx.member->0;
    let scoreboard = ctx.scoreboard->0;
    ResetReputation {
        member: Some(member_reset(member)),
        scoreboard: Some(
            Scoreboard {
                total_reputation: if scoreboard.total_reputation >= member.reputation {
                    (scoreboard.total_reputation - member.reputation) as u64
                } else {
                    0
                },
                ..scoreboard
            },
        ),
        ..ctx
    }
}

/// Takes all reputation and all counted votes from a member.
///
/// The reset is refused, and nothing changes, exactly when
/// `reset_rejection` names an error; that error is returned. Otherwise the
/// records become those of `reset_result`, and the one notification carries
/// the reputation that the member had.
pub fn reset_reputation(ctx: &mut ResetReputation) -> (res: Result<Vec<Notification>, ReputationError>)
    ensures
        res is Err <==> reset_rejection(*old(ctx)) is Some,
        res matches Err(e) ==> reset_rejection(*old(ctx)) == Some(e) && *final(ctx) == *old(ctx),
        res matches Ok(events) ==> *final(ctx) == reset_result(*old(ctx)) && events@ == seq![
            Notification::ReputationReset(
                ReputationReset {
                    identity: old(ctx).member->0.identity,
                    old_reputation: old(ctx).member->0.reputation,
                },
            ),
        ],
        res is Ok ==> final(ctx).member->0.tier_consistent(),
{
    let (mut member, mut scoreboard) = match authorize(ctx.member, ctx.scoreboard, &ctx.authority) {
        Ok(records) => records,
        Err(e) => { return Err(e); },
    };
    let old_reputation = member.reputation;
    member.reputation = 0;
    member.total_upvotes = 0;
    member.total_downvotes = 0;
    member.tier = MemberRole::Member;
    scoreboard.total_reputation = scoreboard.total_reputation.saturating_sub(old_reputation);
    let mut events: Vec<Notification> = Vec::new();
    events.push(
        Notification::ReputationReset(ReputationReset { identity: member.identity, old_reputation }),
    );
    ctx.member = Some(member);
    ctx.scoreboard = Some(scoreboard);
    Ok(events)
}

/// Why a change of parameters is refused, if it is: there is no scoreboard,
/// or the caller is not its authority.
pub open spec fn update_rejection(ctx: UpdateScoreboardParams) -> Option<ReputationError> {
    if ctx.scoreboard is None {
        Some(ReputationError::NotFound)
    } else if ctx.authority != ctx.scoreboard->0.authority {
        Some(ReputationError::Unauthorized)
    } else {
        None
    }
}

/// The records after a change of parameters that is not refused: the three
/// voting parameters are replaced, the authority and the totals stay.
pub open spec fn update_result(
    ctx: UpdateScoreboardParams,
    min_stake: u64,
    vote_cooldown: i64,
    reputation_multiplier: u8,
) -> UpdateScoreboardParams
    recommends
        update_rejection(ctx) is None,
{
    UpdateScoreboardParams {
        scoreboard: Some(
            Scoreboard { min_stake, vote_cooldown, reputation_multiplier, ..ctx.scoreboard->0 },
        ),
        ..ctx
    }
}

/// Replaces the voting parameters of the scoreboard.
///
/// The change is refused, and nothing changes, exactly when
/// `update_rejection` names an error; that error is returned. Otherwise the
/// records become those of `update_result`, and the one notification
/// carries the new parameters.
pub fn update_scoreboard_params(
    ctx: &mut UpdateScoreboardParams,
    min_stake: u64,
    vote_cooldown: i64,
    reputation_multiplier: u8,
) -> (res: Result<Vec<Notification>, ReputationError>)
    ensures
        res is Err <==> update_rejection(*old(ctx)) is Some,
        res matches Err(e) ==> update_rejection(*old(ctx)) == Some(e) && *final(ctx) == *old(ctx),
        res matches Ok(events) ==> *final(ctx) == update_result(
            *old(ctx),
            min_stake,
            vote_cooldown,
            reputation_multiplier,
        ) && events@ == seq![
            Notification::ScoreboardUpdated(
                ScoreboardUpdated { min_stake, vote_cooldown, reputation_multiplier },
            ),
        ],
{
    let mut scoreboard = match ctx.scoreboard {
        Some(scoreboard) => scoreboard,
        None => { return Err(ReputationError::NotFound); },
    };
    if !scoreboard.is_authority(&ctx.authority) {
        return Err(ReputationError::Unauthorized);
    }
    scoreboard.min_stake = min_stake;
    scoreboard.vote_cooldown = vote_cooldown;
    scoreboard.reputation_multiplier = reputation_multiplier;
    let mut events: Vec<Notification> = Vec::new();
    events.push(
        Notification::ScoreboardUpdated(
            ScoreboardUpdated { min_stake, vote_cooldown, reputation_multiplier },
        ),
    );
    ctx.scoreboard = Some(scoreboard);
    Ok(events)
}

/// Why a bonus is refused, if it is: a record is missing, the caller is not
/// the authority, or the member's reputation or the total would not fit.
pub open spec fn bonus_rejection(ctx: AwardBonus, bonus_amount: u64) -> Option<ReputationError> {
    if admin_refusal(ctx.member, ctx.scoreboard, ctx.authority) is Some {
        admin_refusal(ctx.member, ctx.scoreboard, ctx.authority)
    } else if ctx.member->0.reputation + bonus_amount > u64::MAX || ctx.scoreboard->0.total_reputation
        + bonus_amount > u64::MAX {
        Some(ReputationError::Overflow)
    } else {
        None
    }
}

/// The records after a bonus that is not refused: the member's reputation
/// and the total are higher by the bonus, and the member's tier follows.
pub open spec fn bonus_result(ctx: AwardBonus, bonus_amount: u64) -> AwardBonus
    recommends
        bonus_rejection(ctx, bonus_amount) is None,
{
    let member = ctx.member->0;
    let scoreboard = ctx.scoreboard->0;
    AwardBonus {
        member: Some(with_reputation(member, (member.reputation + bonus_amount) as u64)),
        scoreboard: Some(
            Scoreboard {
                total_reputation: (scoreboard.total_reputation + bonus_amount) as u64,
                ..scoreboard
            },
        ),
        ..ctx
    }
}

/// The notifications of a bonus that is not refused: the change of tier, if
/// the member's tier changed, and then the bonus with its reason.
pub open spec fn bonus_notifications(ctx: AwardBonus, bonus_amount: u64, reason: String) -> Seq<
    Notification,
>
    recommends
        bonus_rejection(ctx, bonus_amount) is None,
{
    let member = ctx.member->0;
    let awarded = Notification::BonusAwarded(
        BonusAwarded { identity: member.identity, bonus_amount, reason },
    );
    match upgrade_of(Member { reputation: (member.reputation + bonus_amount) as u64, ..member }) {
        Some(upgrade) => seq![Notification::RoleUpgraded(upgrade), awarded],
        None => seq![awarded],
    }
}

/// Adds `bonus_amount` to a member's reputation, whatever its stake or its
/// last vote.
///
/// The bonus is refused, and nothing changes, exactly when
/// `bonus_rejection` names an error; that error is returned. Otherwise the
/// records become those of `bonus_result` and the notifications of
/// `bonus_notifications` are returned.
pub fn award_bonus(ctx: &mut AwardBonus, bonus_amount: u64, reason: String) -> (res: Result<
    Vec<Notification>,
    ReputationError,
>)
    ensures
        res is Err <==> bonus_rejection(*old(ctx), bonus_amount) is Some,
        res matches Err(e) ==> bonus_rejection(*old(ctx), bonus_amount) == Some(e) && *final(ctx)
            == *old(ctx),
        res matches Ok(events) ==> *final(ctx) == bonus_result(*old(ctx), bonus_amount) && events@
            == bonus_notifications(*old(ctx), bonus_amount, reason),
        res is Ok ==> final(ctx).member->0.tier_consistent(),
{
    let (mut member, mut scoreboard) = match authorize(ctx.member, ctx.scoreboard, &ctx.authority) {
        Ok(records) => records,
        Err(e) => { return Err(e); },
    };
    member.reputation = match member.reputation.checked_add(bonus_amount) {
        Some(n) => n,
        None => { return Err(ReputationError::Overflow); },
    };
    scoreboard.total_reputation = match scoreboard.total_reputation.checked_add(bonus_amount) {
        Some(n) => n,
        None => { return Err(ReputationError::Overflow); },
    };
    let upgrade = check_role_upgrade(&mut member);
    let mut events: Vec<Notification> = Vec::new();
    match upgrade {
        Some(upgrade) => { events.push(Notification::RoleUpgraded(upgrade)); },
        None => {},
    }
    events.push(
        Notification::BonusAwarded(BonusAwarded { identity: member.identity, bonus_amount, reason }),
    );
    ctx.member = Some(member);
    ctx.scoreboard = Some(scoreboard);
    Ok(events)
}

} // verus!
