//! Registering a member.

use crate::error::ReputationError;
use crate::events::{MemberRegistered, Notification};
use crate::records::{Member, Scoreboard};
use crate::tier::{classify, tier_of};
use anchor_lang::prelude::Pubkey;
use vstd::prelude::*;

verus! {

/// What a registration works on: the place of the caller's member record as
/// the host holds it (`None` while the caller has none), the caller's
/// identity, and the scoreboard.
#[derive(Clone, Copy, Debug, PartialEq, Eq)]
pub struct RegisterMember {
    pub member: Option<Member>,
    pub identity: Pubkey,
    pub scoreboard: Option<Scoreboard>,
}

/// A member as it is registered: the given reputation with its tier, no
/// votes cast.
pub open spec fn fresh_member(identity: Pubkey, initial_reputation: u64) -> Member {
    Member {
        identity,
        reputation: initial_reputation,
        total_upvotes: 0,
        total_downvotes: 0,
        last_vote_time: 0,
        tier: tier_of(initial_reputation as nat),
    }
}

/// Why the registration is refused, if it is: there is no scoreboard, or
/// the caller is registered already, or a total would not fit.
pub open spec fn register_rejection(ctx: RegisterMember, initial_reputation: u64) -> Option<
    ReputationError,
> {
    if ctx.scoreboard is None {
        Some(ReputationError::NotFound)
    } else if ctx.member is Some {
        Some(ReputationError::AlreadyRegistered)
    } else if ctx.scoreboard->0.total_members + 1 > u32::MAX || ctx.scoreboard->0.total_reputation
        + initial_reputation > u64::MAX {
        Some(ReputationError::Overflow)
    } else {
        None
    }
}

/// The records after a registration that is not refused: the new member,
/// and a scoreboard that counts one member more and the member's reputation.
pub open spec fn register_result(ctx: RegisterMember, initial_reputation: u64) -> RegisterMember
    recommends
        register_rejection(ctx, initial_reputation) is None,
{
    let scoreboard = ctx.scoreboard->0;
    RegisterMember {
        member: Some(fresh_member(ctx.identity, initial_reputation)),
        scoreboard: Some(
            Scoreboard {
                total_members: (scoreboard.total_members + 1) as u32,
                total_reputation: (scoreboard.total_reputation + initial_reputation) as u64,
                ..scoreboard
            },
        ),
        ..ctx
    }
}

/// Registers the caller as a member with the given reputation.
///
/// The registration is refused, and nothing changes, exactly when
/// `register_rejection` names an error; that error is returned. Otherwise
/// the records become those of `register_result`, and the one notification
/// says who was registered and with what reputation.
pub fn register_member(ctx: &mut RegisterMember, initial_reputation: u64) -> (res: Result<
    Vec<Notification>,
    ReputationError,
>)
    ensures
        res is Err <==> register_rejection(*old(ctx), initial_reputation) is Some,
        res matches Err(e) ==> register_rejection(*old(ctx), initial_reputation) == Some(e)
            && *final(ctx) == *old(ctx),
        res matches Ok(events) ==> *final(ctx) == register_result(*old(ctx), initial_reputation)
            && events@ == seq![
            Notification::MemberRegistered(
                MemberRegistered { identity: old(ctx).identity, reputation: initial_reputation },
            ),
        ],
        res is Ok ==> final(ctx).member->0.tier_consistent(),
{
    let mut scoreboard = match ctx.scoreboard {
        Some(scoreboard) => scoreboard,
        None => { return Err(ReputationError::NotFound); },
    };
    if ctx.member.is_some() {
        return Err(ReputationError::AlreadyRegistered);
    }
    scoreboard.total_members = match scoreboard.total_members.checked_add(1) {
        Some(n) => n,
        None => { return Err(ReputationError::Overflow); },
    };
    scoreboard.total_reputation = match scoreboard.total_reputation.checked_add(initial_reputation) {
        Some(n) => n,
        None => { return Err(ReputationError::Overflow); },
    };
    let member = Member {
        identity: ctx.identity,
        reputation: initial_reputation,
        total_upvotes: 0,
        total_downvotes: 0,
        last_vote_time: 0,
        tier: classify(initial_reputation),
    };
    let mut events: Vec<Notification> = Vec::new();
    events.push(
        Notification::MemberRegistered(
            MemberRegistered { identity: member.identity, reputation: member.reputation },
        ),
    );
    ctx.member = Some(member);
    ctx.scoreboard = Some(scoreboard);
    Ok(events)
}

} // verus!
