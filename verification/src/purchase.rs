//! The purchase routine: the checks made before any purchase, the division of
//! the payment into a burned part and a treasury part, and the token
//! instructions that carry the payment out.

use vstd::prelude::*;
use crate::error::ErrorCode;
use crate::pubkey::Pubkey;
use crate::state::{GameState, TokenAccount};

verus! {

/// The percentage of every payment that is burned.
pub const BURN_PCT: u128 = 95;

/// The part of a payment of `cost` that is burned: 95 percent, rounded down.
pub open spec fn burn_share(cost: nat) -> nat {
    cost * (BURN_PCT as nat) / 100
}

/// The part of a payment of `cost` that goes to the treasury: what the burn
/// leaves.
pub open spec fn treasury_share(cost: nat) -> nat {
    (cost - burn_share(cost)) as nat
}

/// The two parts of a payment add up to it, the burned part is 95 percent of
/// it rounded down, and neither part exceeds it: no unit is lost or created.
pub proof fn lemma_shares_add_up(cost: nat)
    ensures
        burn_share(cost) + treasury_share(cost) == cost,
        burn_share(cost) == (cost * 95) / 100,
        burn_share(cost) <= cost,
        treasury_share(cost) <= cost,
{
}

/// Divides a payment of `cost` into the part to burn and the part for the
/// treasury, in that order. The product is formed in 128 bits, so no cost
/// overflows.
pub fn split_payment(cost: u64) -> (shares: (u64, u64))
    ensures
        shares.0 == burn_share(cost as nat),
        shares.1 == treasury_share(cost as nat),
        shares.0 + shares.1 == cost,
{
    let burn_amount: u64 = ((cost as u128 * BURN_PCT) / 100) as u64;
    let treasury_amount: u64 = cost - burn_amount;
    (burn_amount, treasury_amount)
}

/// The accounts of one purchase.
#[derive(Clone, Copy, Debug, PartialEq, Eq)]
pub struct BuyItem {
    /// The deployment's configuration record.
    pub game_state: GameState,
    /// The buyer, who signs the purchase.
    pub player: Pubkey,
    /// The token account that pays.
    pub player_token_account: TokenAccount,
    /// The token account supplied as the treasury's.
    pub treasury_token_account: TokenAccount,
    /// The mint of the currency supplied.
    pub tic_mint: Pubkey,
}

/// An instruction to destroy `amount` units of `mint` held in `from`,
/// authorized by `authority`.
#[derive(Clone, Copy, Debug, PartialEq, Eq)]
pub struct Burn {
    pub mint: Pubkey,
    pub from: Pubkey,
    pub authority: Pubkey,
    pub amount: u64,
}

/// An instruction to move `amount` units from the token account `from` to
/// the token account `to`, authorized by `authority`.
#[derive(Clone, Copy, Debug, PartialEq, Eq)]
pub struct Transfer {
    pub from: Pubkey,
    pub to: Pubkey,
    pub authority: Pubkey,
    pub amount: u64,
}

/// How an accepted purchase is paid: first the burn, then the transfer to the
/// treasury. Both are authorized by the buyer and draw on the buyer's token
/// account.
#[derive(Clone, Copy, Debug, PartialEq, Eq)]
pub struct Settlement {
    pub burn: Burn,
    pub transfer: Transfer,
}

/// One instruction to the token program.
#[derive(Clone, Copy, Debug, PartialEq, Eq)]
pub enum TokenInstruction {
    Burn(Burn),
    Transfer(Transfer),
}

impl Settlement {
    /// The instructions in the order in which they are to be carried out:
    /// the burn, then the transfer.
    pub open spec fn steps(self) -> Seq<TokenInstruction> {
        seq![TokenInstruction::Burn(self.burn), TokenInstruction::Transfer(self.transfer)]
    }

    /// The instructions of this settlement, in order.
    pub fn instructions(&self) -> (steps: [TokenInstruction; 2])
        ensures
            steps@ == self.steps(),
    {
        let steps = [TokenInstruction::Burn(self.burn), TokenInstruction::Transfer(self.transfer)];
        assert(steps@ =~= self.steps());
        steps
    }
}

/// What the purchase routine answers: how an accepted purchase is paid, or
/// why the purchase is refused.
pub type Outcome = Result<Settlement, ErrorCode>;

impl BuyItem {
    /// The first check that a purchase of `cost` fails, in the order in which
    /// the checks are made, or `None` if it passes them all.
    pub open spec fn rejection(self, cost: u64) -> Option<ErrorCode> {
        if self.game_state.tic_mint != self.tic_mint {
            Some(ErrorCode::InvalidMint)
        } else if self.player_token_account.mint != self.tic_mint {
            Some(ErrorCode::InvalidMint)
        } else if self.treasury_token_account.key != self.game_state.treasury_token_account {
            Some(ErrorCode::InvalidTreasuryAccount)
        } else if self.treasury_token_account.mint != self.tic_mint {
            Some(ErrorCode::InvalidMint)
        } else if self.player_token_account.owner != self.player {
            Some(ErrorCode::InvalidTokenOwner)
        } else if self.player_token_account.amount < cost {
            Some(ErrorCode::InsufficientFunds)
        } else {
            None
        }
    }

    /// Whether the accounts fit together: every check passes that does not
    /// look at the cost.
    pub open spec fn accounts_fit(self) -> bool {
        &&& self.game_state.tic_mint == self.tic_mint
        &&& self.player_token_account.mint == self.tic_mint
        &&& self.treasury_token_account.key == self.game_state.treasury_token_account
        &&& self.treasury_token_account.mint == self.tic_mint
        &&& self.player_token_account.owner == self.player
    }

    /// The instructions that pay `cost` from the buyer's token account.
    pub open spec fn settlement(self, cost: u64) -> Settlement {
        Settlement {
            burn: Burn {
                mint: self.tic_mint,
                from: self.player_token_account.key,
                authority: self.player,
                amount: burn_share(cost as nat) as u64,
            },
            transfer: Transfer {
                from: self.player_token_account.key,
                to: self.treasury_token_account.key,
                authority: self.player,
                amount: treasury_share(cost as nat) as u64,
            },
        }
    }

    /// What a purchase of `cost` comes to: the error of the first check that
    /// fails, or else the instructions that pay it.
    pub open spec fn outcome(self, cost: u64) -> Outcome {
        match self.rejection(cost) {
            Some(code) => Err(code),
            None => Ok(self.settlement(cost)),
        }
    }
}

/// The number of units that leave the payer's balance under `outcome`: both
/// parts of the payment if the purchase was accepted, nothing if it was
/// refused.
pub open spec fn amount_debited(outcome: Outcome) -> nat {
    match outcome {
        Ok(settlement) => (settlement.burn.amount + settlement.transfer.amount) as nat,
        Err(_) => 0,
    }
}

/// Checks a purchase of `cost` and, if every check passes, says how it is
/// paid. Nothing is paid here: the instructions are for the caller to carry
/// out, in the order that [`Settlement::instructions`] gives. A refused
/// purchase yields no instruction at all.
pub fn process_purchase(ctx: &BuyItem, cost: u64) -> (outcome: Outcome)
    ensures
        outcome == ctx.outcome(cost),
{
    let game_state = &ctx.game_state;

    if game_state.tic_mint != ctx.tic_mint {
        return Err(ErrorCode::InvalidMint);
    }
    if ctx.player_token_account.mint != ctx.tic_mint {
        return Err(ErrorCode::InvalidMint);
    }
    if ctx.treasury_token_account.key != game_state.treasury_token_account {
        return Err(ErrorCode::InvalidTreasuryAccount);
    }
    if ctx.treasury_token_account.mint != ctx.tic_mint {
        return Err(ErrorCode::InvalidMint);
    }
    if ctx.player_token_account.owner != ctx.player {
        return Err(ErrorCode::InvalidTokenOwner);
    }
    if ctx.player_token_account.amount < cost {
        return Err(ErrorCode::InsufficientFunds);
    }

    let (burn_amount, treasury_amount) = split_payment(cost);
    Ok(
        Settlement {
            burn: Burn {
                mint: ctx.tic_mint,
                from: ctx.player_token_account.key,
                authority: ctx.player,
                amount: burn_amount,
            },
            transfer: Transfer {
                from: ctx.player_token_account.key,
                to: ctx.treasury_token_account.key,
                authority: ctx.player,
                amount: treasury_amount,
            },
        },
    )
}

/// When each answer is given. A purchase is accepted exactly when the
/// accounts fit together and the balance covers the cost. Each error comes
/// exactly when its check is the first to fail, in this order: the configured
/// currency, the payer's currency, the treasury account, the treasury's
/// currency, the owner of the payer's account, the balance. The routine
/// gives no other error.
pub proof fn lemma_purchase_answers(ctx: BuyItem, cost: u64)
    ensures
        ctx.outcome(cost) is Ok <==> ctx.accounts_fit() && ctx.player_token_account.amount
            >= cost,
        ctx.outcome(cost) is Ok ==> ctx.outcome(cost) == Outcome::Ok(ctx.settlement(cost)),
        ctx.outcome(cost) == Outcome::Err(ErrorCode::InvalidMint) <==> {
            ||| ctx.game_state.tic_mint != ctx.tic_mint
            ||| ctx.player_token_account.mint != ctx.tic_mint
            ||| (ctx.treasury_token_account.key == ctx.game_state.treasury_token_account
                && ctx.treasury_token_account.mint != ctx.tic_mint)
        },
        ctx.outcome(cost) == Outcome::Err(ErrorCode::InvalidTreasuryAccount) <==> {
            &&& ctx.game_state.tic_mint == ctx.tic_mint
            &&& ctx.player_token_account.mint == ctx.tic_mint
            &&& ctx.treasury_token_account.key != ctx.game_state.treasury_token_account
        },
        ctx.outcome(cost) == Outcome::Err(ErrorCode::InvalidTokenOwner) <==> {
            &&& ctx.game_state.tic_mint == ctx.tic_mint
            &&& ctx.player_token_account.mint == ctx.tic_mint
            &&& ctx.treasury_token_account.key == ctx.game_state.treasury_token_account
            &&& ctx.treasury_token_account.mint == ctx.tic_mint
            &&& ctx.player_token_account.owner != ctx.player
        },
        ctx.outcome(cost) == Outcome::Err(ErrorCode::InsufficientFunds) <==> ctx.accounts_fit()
            && ctx.player_token_account.amount < cost,
        ctx.outcome(cost) != Outcome::Err(ErrorCode::Unauthorized),
        ctx.outcome(cost) != Outcome::Err(ErrorCode::InvalidTreasuryOwner),
        ctx.outcome(cost) != Outcome::Err(ErrorCode::InvalidKind),
{
}

/// An accepted purchase takes exactly its cost from the payer, 95 percent of
/// it (rounded down) by the burn and the rest by the transfer; a refused
/// purchase takes nothing.
pub proof fn lemma_paid_in_full_or_not_at_all(ctx: BuyItem, cost: u64)
    ensures
        ctx.outcome(cost) matches Ok(settlement) ==> {
            &&& settlement.burn.amount == burn_share(cost as nat)
            &&& settlement.transfer.amount == treasury_share(cost as nat)
            &&& settlement.burn.amount + settlement.transfer.amount == cost
            &&& amount_debited(ctx.outcome(cost)) == cost
        },
        ctx.outcome(cost) is Err ==> amount_debited(ctx.outcome(cost)) == 0,
{
    lemma_shares_add_up(cost as nat);
}

/// Where the accounts fit together, the balance alone decides: the purchase
/// is accepted if the balance is at least the cost, in particular if it is
/// exactly the cost, and is refused as `InsufficientFunds`, with nothing
/// paid, if it is below, in particular if it is one unit short.
pub proof fn lemma_balance_decides(ctx: BuyItem, cost: u64)
    requires
        ctx.accounts_fit(),
    ensures
        ctx.player_token_account.amount >= cost ==> ctx.outcome(cost) == Outcome::Ok(
            ctx.settlement(cost),
        ),
        ctx.player_token_account.amount == cost ==> ctx.outcome(cost) is Ok,
        ctx.player_token_account.amount < cost ==> ctx.outcome(cost) == Outcome::Err(
            ErrorCode::InsufficientFunds,
        ),
        ctx.player_token_account.amount == cost - 1 ==> {
            &&& ctx.outcome(cost) == Outcome::Err(ErrorCode::InsufficientFunds)
            &&& amount_debited(ctx.outcome(cost)) == 0
        },
{
}

/// A purchase that names another treasury account than the configured one is
/// refused, whatever else it is given, and nothing is paid.
pub proof fn lemma_wrong_treasury_is_refused(ctx: BuyItem, cost: u64)
    requires
        ctx.treasury_token_account.key != ctx.game_state.treasury_token_account,
    ensures
        ctx.outcome(cost) is Err,
        amount_debited(ctx.outcome(cost)) == 0,
{
}

/// A purchase that names another treasury account than the configured one is
/// refused as `InvalidTreasuryAccount`, provided that the two checks made
/// before that one pass: the configured currency and the currency of the
/// payer's account are those of the mint supplied.
pub proof fn lemma_wrong_treasury_error(ctx: BuyItem, cost: u64)
    requires
        ctx.treasury_token_account.key != ctx.game_state.treasury_token_account,
        ctx.game_state.tic_mint == ctx.tic_mint,
        ctx.player_token_account.mint == ctx.tic_mint,
    ensures
        ctx.outcome(cost) == Outcome::Err(ErrorCode::InvalidTreasuryAccount),
        amount_debited(ctx.outcome(cost)) == 0,
{
}

} // verus!
