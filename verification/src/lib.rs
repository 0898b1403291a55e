//! A reputation ledger: member records whose scores move by peer votes under
//! a stake threshold and a cooldown, and whose tier follows from the score.
//!
//! Every operation takes the records it works on, and the facts that the
//! host knows (who calls, what the voter holds, what time it is), in a
//! context value, and hands back the notifications to emit. An operation
//! that is refused leaves its context as it was.

pub mod admin;
pub mod effect;
pub mod eligibility;
pub mod error;
pub mod events;
pub mod identity;
pub mod initialize;
pub mod laws;
pub mod ledger;
pub mod records;
pub mod register;
pub mod tier;
pub mod vote;

pub use admin::{
    award_bonus, reset_reputation, update_scoreboard_params, AwardBonus, ResetReputation,
    UpdateScoreboardParams,
};
pub use error::ReputationError;
pub use events::{
    BonusAwarded, MemberRegistered, MemberVoted, Notification, ReputationReset, RoleUpgraded,
    ScoreboardUpdated,
};
pub use initialize::{initialize_scoreboard, InitializeScoreboard};
pub use records::{Member, Scoreboard, VoteType};
pub use register::{register_member, RegisterMember};
pub use tier::{check_role_upgrade, classify, MemberRole};
pub use vote::{vote_member, VoteMember};
