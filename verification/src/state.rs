//! The accounts that the shop reads, as plain values.

use vstd::prelude::*;
use crate::pubkey::Pubkey;

verus! {

/// The configuration record of a deployment: who set it up, which currency
/// the shop accepts, and which token account collects the treasury's share.
#[derive(Clone, Copy, Debug, PartialEq, Eq)]
pub struct GameState {
    /// The identity that initialized the deployment.
    pub authority: Pubkey,
    /// The mint of the accepted currency.
    pub tic_mint: Pubkey,
    /// The token account that receives the part of a payment that is not burned.
    pub treasury_token_account: Pubkey,
    /// The byte from which the record's address is derived again on each access.
    pub bump: u8,
}

/// A token account as the shop sees it: where it lives, which currency it
/// holds, who owns it and how much is in it.
#[derive(Clone, Copy, Debug, PartialEq, Eq)]
pub struct TokenAccount {
    /// The account's own address.
    pub key: Pubkey,
    /// The mint of the currency held.
    pub mint: Pubkey,
    /// The owner recorded in the account.
    pub owner: Pubkey,
    /// The balance, in base units.
    pub amount: u64,
}

} // verus!
