//! The three ways to buy: a fish, a cat, a tree.
//!
//! Each looks the item up in its catalog, runs the purchase routine with the
//! cost found, and reports the purchase in an event. The event is handed
//! back with the instructions that pay; it is for the caller to publish once
//! they have been carried out.

use vstd::prelude::*;
use crate::catalog::{cat_cost, cost_of_cat, cost_of_fish, cost_of_tree, fish_cost, tree_cost};
use crate::error::ErrorCode;
use crate::pubkey::Pubkey;
use crate::purchase::{
    amount_debited, lemma_paid_in_full_or_not_at_all, lemma_purchase_answers, process_purchase,
    BuyItem, Outcome, Settlement,
};

verus! {

/// The report of a fish bought.
#[derive(Debug, PartialEq, Eq)]
pub struct FishPurchased {
    pub buyer: Pubkey,
    /// The name as the buyer wrote it.
    pub kind: String,
    /// The cost, in base units.
    pub amount_paid: u64,
}

/// The report of a cat bought.
#[derive(Debug, PartialEq, Eq)]
pub struct CatPurchased {
    pub buyer: Pubkey,
    /// The name as the buyer wrote it.
    pub cat_type: String,
    /// The cost, in base units.
    pub amount_paid: u64,
}

/// The report of a tree bought.
#[derive(Debug, PartialEq, Eq)]
pub struct TreePurchased {
    pub buyer: Pubkey,
    /// The name as the buyer wrote it.
    pub tree_type: String,
    /// The cost, in base units.
    pub amount_paid: u64,
}

/// What buying an item comes to, given what its catalog says of its name: a
/// name that is not listed is refused as `InvalidKind` before any check of
/// the accounts; a listed one is a purchase of its cost.
pub open spec fn buy_outcome(ctx: BuyItem, cost: Option<u64>) -> Outcome {
    match cost {
        Some(c) => ctx.outcome(c),
        None => Err(ErrorCode::InvalidKind),
    }
}

/// When buying is refused for the name alone, and what is paid otherwise. An
/// item is bought exactly when it is listed, the accounts fit together and
/// the balance covers its cost; the payer is then debited exactly the listed
/// cost. `InvalidKind` comes exactly for a name that is not listed, and
/// nothing is paid whenever buying is refused. `Unauthorized`, which is
/// reserved, and `InvalidTreasuryOwner`, which belongs to initialization,
/// never come.
pub proof fn lemma_buy_answers(ctx: BuyItem, cost: Option<u64>)
    ensures
        buy_outcome(ctx, cost) is Ok <==> {
            &&& cost matches Some(c)
            &&& ctx.accounts_fit()
            &&& ctx.player_token_account.amount >= c
        },
        buy_outcome(ctx, cost) is Ok ==> amount_debited(buy_outcome(ctx, cost)) == cost->0,
        buy_outcome(ctx, cost) is Err ==> amount_debited(buy_outcome(ctx, cost)) == 0,
        buy_outcome(ctx, cost) == Outcome::Err(ErrorCode::InvalidKind) <==> cost is None,
        buy_outcome(ctx, cost) != Outcome::Err(ErrorCode::Unauthorized),
        buy_outcome(ctx, cost) != Outcome::Err(ErrorCode::InvalidTreasuryOwner),
{
    if let Some(c) = cost {
        lemma_purchase_answers(ctx, c);
        lemma_paid_in_full_or_not_at_all(ctx, c);
    }
}

/// Buys the fish `kind`, spelled in any mix of capitals and small letters.
pub fn buy_fish(ctx: &BuyItem, kind: String) -> (bought: Result<
    (Settlement, FishPurchased),
    ErrorCode,
>)
    ensures
        match bought {
            Ok((settlement, event)) => {
                &&& buy_outcome(*ctx, fish_cost(kind@)) == Outcome::Ok(settlement)
                &&& event.buyer == ctx.player
                &&& event.kind@ == kind@
                &&& Some(event.amount_paid) == fish_cost(kind@)
            },
            Err(code) => buy_outcome(*ctx, fish_cost(kind@)) == Outcome::Err(code),
        },
{
    let cost: u64 = cost_of_fish(kind.as_str())?;
    let settlement = process_purchase(ctx, cost)?;
    Ok((settlement, FishPurchased { buyer: ctx.player, kind, amount_paid: cost }))
}

/// Buys the cat `cat_type`, spelled exactly as listed.
pub fn buy_cat(ctx: &BuyItem, cat_type: String) -> (bought: Result<
    (Settlement, CatPurchased),
    ErrorCode,
>)
    ensures
        match bought {
            Ok((settlement, event)) => {
                &&& buy_outcome(*ctx, cat_cost(cat_type@)) == Outcome::Ok(settlement)
                &&& event.buyer == ctx.player
                &&& event.cat_type@ == cat_type@
                &&& Some(event.amount_paid) == cat_cost(cat_type@)
            },
            Err(code) => buy_outcome(*ctx, cat_cost(cat_type@)) == Outcome::Err(code),
        },
{
    let cost: u64 = cost_of_cat(cat_type.as_str())?;
    let settlement = process_purchase(ctx, cost)?;
    Ok((settlement, CatPurchased { buyer: ctx.player, cat_type, amount_paid: cost }))
}

/// Buys the tree `tree_type`, spelled exactly as listed.
pub fn buy_tree(ctx: &BuyItem, tree_type: String) -> (bought: Result<
    (Settlement, TreePurchased),
    ErrorCode,
>)
    ensures
        match bought {
            Ok((settlement, event)) => {
                &&& buy_outcome(*ctx, tree_cost(tree_type@)) == Outcome::Ok(settlement)
                &&& event.buyer == ctx.player
                &&& event.tree_type@ == tree_type@
                &&& Some(event.amount_paid) == tree_cost(tree_type@)
            },
            Err(code) => buy_outcome(*ctx, tree_cost(tree_type@)) == Outcome::Err(code),
        },
{
    let cost: u64 = cost_of_tree(tree_type.as_str())?;
    let settlement = process_purchase(ctx, cost)?;
    Ok((settlement, TreePurchased { buyer: ctx.player, tree_type, amount_paid: cost }))
}

} // verus!
