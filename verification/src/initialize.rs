//! Creating the scoreboard.

use crate::error::ReputationError;
use crate::records::Scoreboard;
use anchor_lang::prelude::Pubkey;
use vstd::prelude::*;

verus! {

/// What creating the scoreboard works on: the place of the scoreboard as
/// the host holds it (`None` while there is none), and the identity of the
/// caller, who becomes the authority.
#[derive(Clone, Copy, Debug, PartialEq, Eq)]
pub struct InitializeScoreboard {
    pub scoreboard: Option<Scoreboard>,
    pub authority: Pubkey,
}

/// A scoreboard as it is created: the given authority and parameters, no
/// members and no reputation.
pub open spec fn fresh_scoreboard(
    authority: Pubkey,
    min_stake: u64,
    vote_cooldown: i64,
    reputation_multiplier: u8,
) -> Scoreboard {
    Scoreboard {
        authority,
        min_stake,
        vote_cooldown,
        reputation_multiplier,
        total_members: 0,
        total_reputation: 0,
    }
}

/// Why creating the scoreboard is refused, if it is: one is already there.
pub open spec fn initialize_rejection(ctx: InitializeScoreboard) -> Option<ReputationError> {
    if ctx.scoreboard is Some {
        Some(ReputationError::AlreadyInitialized)
    } else {
        None
    }
}

/// The records after a creation that is not refused.
pub open spec fn initialize_result(
    ctx: InitializeScoreboard,
    min_stake: u64,
    vote_cooldown: i64,
    reputation_multiplier: u8,
) -> InitializeScoreboard
    recommends
        initialize_rejection(ctx) is None,
{
    InitializeScoreboard {
        scoreboard: Some(
            fresh_scoreboard(ctx.authority, min_stake, vote_cooldown, reputation_multiplier),
        ),
        ..ctx
    }
}

/// Creates the scoreboard with `ctx.authority` as its authority.
///
/// The creation is refused with `AlreadyInitialized`, and nothing changes,
/// exactly when a scoreboard is already there. Otherwise the scoreboard is
/// the one of `initialize_result`.
pub fn initialize_scoreboard(
    ctx: &mut InitializeScoreboard,
    min_stake: u64,
    vote_cooldown: i64,
    reputation_multiplier: u8,
) -> (res: Result<(), ReputationError>)
    ensures
        res is Err <==> initialize_rejection(*old(ctx)) is Some,
        res matches Err(e) ==> initialize_rejection(*old(ctx)) == Some(e) && *final(ctx) == *old(ctx),
        res is Ok ==> *final(ctx) == initialize_result(
            *old(ctx),
            min_stake,
            vote_cooldown,
            reputation_multiplier,
        ),
{
    if ctx.scoreboard.is_some() {
        return Err(ReputationError::AlreadyInitialized);
    }
    ctx.scoreboard = Some(
        Scoreboard {
            authority: ctx.authority,
            min_stake,
            vote_cooldown,
            reputation_multiplier,
            total_members: 0,
            total_reputation: 0,
        },
    );
    Ok(())
}

} // verus!
