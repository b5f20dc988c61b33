//! Fee accounting for on-chain payment contracts: priority-scaled fee
//! calculation with fallbacks, a cycle-based fee escrow, time-limited
//! discounts and wallet-to-user links, each as a verified state model.
use vstd::prelude::*;

pub mod host;
pub mod amounts;
pub mod discount;
pub mod escrow;
pub mod fee;
pub mod fee_contract;
pub mod priority;
pub mod wallet;

verus! {

/// An account (a user, a wallet, an asset contract or a treasury), named by
/// a number that the surrounding contract assigns to each distinct address.
pub type AccountId = u64;

} // verus!
