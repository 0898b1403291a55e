//! Identities of participants. An identity is the host's public key; this
//! library carries keys around and compares them, and never looks inside one.

use anchor_lang::prelude::Pubkey;
use vstd::prelude::*;

verus! {

/// `Pubkey` of `anchor_lang::prelude`: a 32-byte public key. Nothing is
/// claimed of what a key holds.
#[verifier::external_type_specification]
#[verifier::external_body]
pub struct ExPubkey(anchor_lang::prelude::Pubkey);

/// Calls `Pubkey::eq`, the `PartialEq` that the key type derives over its
/// 32 bytes. The contract claims that it answers `true` exactly when the two
/// keys are the same value.
#[verifier::external_body]
pub(crate) fn keys_equal(a: &Pubkey, b: &Pubkey) -> (same: bool)
    ensures
        same == (*a == *b),
{
    a == b
}

} // verus!
