//! Initialization: the one operation that writes the configuration record.
//!
//! A deployment has a single slot for its configuration record. The slot is
//! vacant until initialization fills it, and a filled slot is never written
//! again.

use vstd::prelude::*;
use crate::error::ErrorCode;
use crate::pubkey::Pubkey;
use crate::state::{GameState, TokenAccount};

verus! {

/// The accounts of an initialization.
#[derive(Clone, Copy, Debug, PartialEq, Eq)]
pub struct InitializeGame {
    /// The slot of the configuration record: `None` while it is vacant.
    pub game_state: Option<GameState>,
    /// The identity that sets the deployment up, and signs.
    pub authority: Pubkey,
    /// The token account that is to collect the treasury's share.
    pub treasury_token_account: TokenAccount,
    /// The mint of the currency that the shop is to accept.
    pub tic_mint: Pubkey,
    /// The byte from which the record's address was derived.
    pub bump: u8,
}

/// Why an initialization fails.
#[derive(Clone, Copy, Debug, PartialEq, Eq, Hash, Structural)]
pub enum InitializeError {
    /// The slot already holds a configuration record.
    AlreadyInitialized,
    /// The slot is vacant, but the accounts supplied do not fit together.
    Refused(ErrorCode),
}

impl InitializeGame {
    /// The reason for which this initialization fails, or `None` if it
    /// succeeds. A filled slot comes before anything else; then the owner of
    /// the treasury account, then its currency.
    pub open spec fn rejection(self) -> Option<InitializeError> {
        if self.game_state is Some {
            Some(InitializeError::AlreadyInitialized)
        } else if self.treasury_token_account.owner != self.authority {
            Some(InitializeError::Refused(ErrorCode::InvalidTreasuryOwner))
        } else if self.treasury_token_account.mint != self.tic_mint {
            Some(InitializeError::Refused(ErrorCode::InvalidMint))
        } else {
            None
        }
    }

    /// The configuration record that these accounts describe.
    pub open spec fn record(self) -> GameState {
        GameState {
            authority: self.authority,
            tic_mint: self.tic_mint,
            treasury_token_account: self.treasury_token_account.key,
            bump: self.bump,
        }
    }

    /// What this initialization answers.
    pub open spec fn outcome(self) -> Result<(), InitializeError> {
        match self.rejection() {
            Some(error) => Err(error),
            None => Ok(()),
        }
    }

    /// The accounts once the initialization has run: the slot holds the new
    /// record if it succeeded, and nothing has changed if it failed.
    pub open spec fn after(self) -> InitializeGame {
        if self.rejection() is None {
            InitializeGame { game_state: Some(self.record()), ..self }
        } else {
            self
        }
    }
}

/// Fills the vacant slot with the configuration record, provided that the
/// treasury account is owned by the authority and holds the currency of the
/// mint. A failed initialization leaves the accounts as they were.
pub fn initialize_game(ctx: &mut InitializeGame) -> (outcome: Result<(), InitializeError>)
    ensures
        outcome == old(ctx).outcome(),
        *final(ctx) == old(ctx).after(),
{
    if ctx.game_state.is_some() {
        return Err(InitializeError::AlreadyInitialized);
    }
    if ctx.treasury_token_account.owner != ctx.authority {
        return Err(InitializeError::Refused(ErrorCode::InvalidTreasuryOwner));
    }
    if ctx.treasury_token_account.mint != ctx.tic_mint {
        return Err(InitializeError::Refused(ErrorCode::InvalidMint));
    }

    ctx.game_state = Some(
        GameState {
            authority: ctx.authority,
            tic_mint: ctx.tic_mint,
            treasury_token_account: ctx.treasury_token_account.key,
            bump: ctx.bump,
        },
    );

    Ok(())
}

/// Initialization succeeds at most once: after an initialization that
/// succeeded, every further one on the same slot fails, whatever else it is
/// given, and leaves the record as the first one wrote it.
pub proof fn lemma_initialized_once(first: InitializeGame, second: InitializeGame)
    requires
        first.outcome() is Ok,
        second.game_state == first.after().game_state,
    ensures
        second.outcome() matches Err(InitializeError::AlreadyInitialized),
        second.after().game_state == Some(first.record()),
{
}

/// On a vacant slot, initialization succeeds exactly when the treasury
/// account is owned by the authority and holds the currency of the mint; it
/// then leaves the slot filled.
pub proof fn lemma_first_initialization(ctx: InitializeGame)
    requires
        ctx.game_state is None,
    ensures
        ctx.outcome() is Ok <==> ctx.treasury_token_account.owner == ctx.authority
            && ctx.treasury_token_account.mint == ctx.tic_mint,
        ctx.outcome() is Ok ==> ctx.after().game_state == Some(ctx.record()),
        ctx.outcome() is Err ==> ctx.after().game_state is None,
{
}

/// When each answer is given. Initialization succeeds exactly on a vacant
/// slot with a treasury account that the authority owns and that holds the
/// currency of the mint. Each error comes exactly when its check is the
/// first to fail, in this order: the slot, the owner, the currency. No other
/// error is given; in particular `Unauthorized`, which is reserved, is not.
pub proof fn lemma_initialize_answers(ctx: InitializeGame)
    ensures
        ctx.outcome() is Ok <==> {
            &&& ctx.game_state is None
            &&& ctx.treasury_token_account.owner == ctx.authority
            &&& ctx.treasury_token_account.mint == ctx.tic_mint
        },
        ctx.outcome() matches Err(InitializeError::AlreadyInitialized) <==> ctx.game_state
            is Some,
        ctx.outcome() matches Err(InitializeError::Refused(ErrorCode::InvalidTreasuryOwner))
            <==> ctx.game_state is None && ctx.treasury_token_account.owner != ctx.authority,
        ctx.outcome() matches Err(InitializeError::Refused(ErrorCode::InvalidMint)) <==> {
            &&& ctx.game_state is None
            &&& ctx.treasury_token_account.owner == ctx.authority
            &&& ctx.treasury_token_account.mint != ctx.tic_mint
        },
        ctx.outcome() matches Err(InitializeError::Refused(code)) ==> code
            == ErrorCode::InvalidTreasuryOwner || code == ErrorCode::InvalidMint,
{
}

} // verus!
