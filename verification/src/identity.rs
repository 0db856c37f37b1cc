//! The identity of a party: a Solana public key, compared and never opened.

use anchor_lang::prelude::Pubkey;
use vstd::prelude::*;

verus! {

/// `anchor_lang::prelude::Pubkey`, declared so that it can be stored and
/// passed on. Its bytes stay opaque: keys are only ever compared.
#[verifier::external_type_specification]
#[verifier::external_body]
pub struct ExPubkey(Pubkey);

/// Compares two keys with `Pubkey`'s own `==`.
///
/// Trusted: `Pubkey` wraps 32 bytes and derives `PartialEq`, so `==` holds
/// exactly when both keys are the same value.
#[verifier::external_body]
pub(crate) fn same_key(a: &Pubkey, b: &Pubkey) -> (same: bool)
    ensures
        same == (*a == *b),
{
    a == b
}

} // verus!
