//! Notifications returned by successful operations, for the host to emit.

use vstd::prelude::*;
use crate::state::{AccountId, BetSide, WinningSide};

verus! {

/// Emitted when a user places a bet.
#[derive(Clone, Debug, PartialEq, Eq)]
pub struct BetPlaced {
    pub user: AccountId,
    pub asset_symbol: String,
    pub epoch_id: u64,
    pub side: BetSide,
    pub amount: u64,
    pub timestamp: i64,
}

/// Emitted when an epoch is locked (betting closed), carrying a snapshot
/// of the final pool sums.
#[derive(Clone, Debug, PartialEq, Eq)]
pub struct EpochLocked {
    pub asset_symbol: String,
    pub epoch_id: u64,
    pub timestamp: i64,
    pub sum_up: u64,
    pub sum_down: u64,
}

/// Emitted when an epoch is settled.
#[derive(Clone, Debug, PartialEq, Eq)]
pub struct EpochSettled {
    pub asset_symbol: String,
    pub epoch_id: u64,
    pub settle_price: i64,
    pub settle_expo: i32,
    pub winning_side: WinningSide,
    pub fee_amount: u64,
    pub net_pool: u64,
    pub timestamp: i64,
}

/// Emitted when a user claims their winnings.
#[derive(Clone, Debug, PartialEq, Eq)]
pub struct Claimed {
    pub user: AccountId,
    pub asset_symbol: String,
    pub epoch_id: u64,
    pub payout: u64,
    pub timestamp: i64,
}

/// Emitted when a new epoch is created.
#[derive(Clone, Debug, PartialEq, Eq)]
pub struct EpochCreated {
    pub asset_symbol: String,
    pub epoch_id: u64,
    pub start_ts: i64,
    pub cutoff_ts: i64,
    pub end_ts: i64,
}

} // verus!
