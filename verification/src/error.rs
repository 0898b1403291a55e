//! The ways an operation can be refused.

use vstd::prelude::*;

verus! {

/// Why an operation was refused. A refused operation changes nothing.
#[derive(Clone, Copy, Debug, PartialEq, Eq, Structural)]
pub enum ReputationError {
    /// A scoreboard already exists.
    AlreadyInitialized,
    /// The identity already has a member record.
    AlreadyRegistered,
    /// The voter holds less than the scoreboard's minimum stake.
    InsufficientStake,
    /// The voter's last vote is more recent than the cooldown allows.
    CooldownActive,
    /// A number that the operation has to produce does not fit its type.
    Overflow,
    /// The caller is not the scoreboard's authority.
    Unauthorized,
    /// A record that the operation refers to does not exist.
    NotFound,
}

} // verus!
