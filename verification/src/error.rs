//! Why an operation is refused.

use vstd::prelude::*;

verus! {

/// The reasons for which initialization or a purchase is refused.
#[derive(Clone, Copy, Debug, PartialEq, Eq, Hash, Structural)]
pub enum ErrorCode {
    /// An account holds, or the configuration names, another currency than
    /// the mint that was supplied.
    InvalidMint,
    /// The treasury account supplied is not the configured one.
    InvalidTreasuryAccount,
    /// The payer's balance is below the cost.
    InsufficientFunds,
    /// Reserved for operations gated by the authority; nothing returns it.
    Unauthorized,
    /// The payer's token account is not owned by the payer.
    InvalidTokenOwner,
    /// At initialization, the treasury account is not owned by the authority.
    InvalidTreasuryOwner,
    /// The item name is in no catalog entry.
    InvalidKind,
}

} // verus!
