//! The rules of a shop whose items are paid for in a token.
//!
//! Players buy fish, cats and trees at fixed prices. Of every payment 95
//! percent is burned and the rest goes to a treasury account. A deployment
//! has one configuration record, written once, that names the accepted
//! currency and the treasury account.
//!
//! This crate decides and computes; it moves no tokens and stores nothing.
//! The accounts come in as plain values. An accepted purchase comes back as
//! the two token instructions that pay it, with the event that reports it;
//! a refused one comes back as the error of the first check that failed.
//! Every function is verified against a contract over the models below:
//!
//! - [`catalog`]: the price catalogs as maps from names to prices;
//! - [`purchase`]: the checks of a purchase and the division of a payment;
//! - [`buy`]: the three ways to buy, each a lookup followed by a purchase;
//! - [`initialize`]: the slot of the configuration record, filled once;
//! - [`state`], [`pubkey`], [`error`], [`text`]: the values these work on.

pub mod buy;
pub mod catalog;
pub mod error;
pub mod initialize;
pub mod pubkey;
pub mod purchase;
pub mod state;
pub mod text;

pub use buy::{buy_cat, buy_fish, buy_tree, CatPurchased, FishPurchased, TreePurchased};
pub use catalog::{cost_of_cat, cost_of_fish, cost_of_tree, TIC};
pub use error::ErrorCode;
pub use initialize::{initialize_game, InitializeError, InitializeGame};
pub use pubkey::Pubkey;
pub use purchase::{
    process_purchase, split_payment, Burn, BuyItem, Outcome, Settlement, TokenInstruction,
    Transfer, BURN_PCT,
};
pub use state::{GameState, TokenAccount};
