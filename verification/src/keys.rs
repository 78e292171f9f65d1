//! Player identities.
//!
//! A player is named by a [`Pubkey`], a type of `anchor_lang`.  The engine
//! never looks inside a key: it stores keys, hands them back and compares
//! them.  What Verus is told of `Pubkey` is stated, unproved, in this file.

use anchor_lang::prelude::Pubkey;
use vstd::prelude::*;

verus! {

/// Makes `anchor_lang::prelude::Pubkey` known to Verus, as a value that it
/// cannot look into.
#[verifier::external_type_specification]
#[verifier::external_body]
pub struct ExPubkey(Pubkey);

/// `Pubkey`'s own `==`.
///
/// Trusted: `Pubkey` derives its `PartialEq` over the 32 bytes that it
/// holds, so the answer is `true` exactly when the two keys are the same
/// value.
#[verifier::external_body]
pub(crate) fn same_key(a: &Pubkey, b: &Pubkey) -> (same: bool)
    ensures
        same == (*a == *b),
{
    a == b
}

/// `Pubkey::default()`, the key that fills the player slots of a record to
/// which no players have been bound yet.
///
/// Trusted: the call returns; nothing is claimed of the key that comes back.
#[verifier::external_body]
pub(crate) fn unbound_key() -> (key: Pubkey) {
    Pubkey::default()
}

} // verus!
