//! Deterministic derivation of a token-holding sub-account address from an
//! owner and the asset mint.

use vstd::prelude::*;
use crate::keys::AccountId;

verus! {

/// The address of the associated token sub-account that holds `mint`-tokens
/// on behalf of `owner`.  The derivation is a pure function of the two
/// addresses; its definition (a program-derived-address hash search) lives in
/// the SPL associated-token crate and is left uninterpreted here.
pub uninterp spec fn ata_of(owner: Seq<u8>, mint: Seq<u8>) -> Seq<u8>;

/// Relies on `anchor_spl::associated_token::get_associated_token_address`:
/// the returned address is a deterministic function of the owner and mint
/// addresses alone.  Like the SPL crate, this treats bump-seed exhaustion
/// during the hash search as unreachable.
#[verifier::external_body]
pub(crate) fn ata_for(owner: &AccountId, mint: &AccountId) -> (r: AccountId)
    ensures
        r@ == ata_of(owner@, mint@),
{
    let o = anchor_lang::prelude::Pubkey::new_from_array(owner.bytes);
    let m = anchor_lang::prelude::Pubkey::new_from_array(mint.bytes);
    let a = anchor_spl::associated_token::get_associated_token_address(&o, &m);
    AccountId { bytes: a.to_bytes() }
}

} // verus!
