//! Persisted records, their invariants, and the pool-settlement arithmetic.

use vstd::prelude::*;
use vstd::arithmetic::div_mod::{
    lemma_div_is_ordered, lemma_div_multiples_vanish, lemma_fundamental_div_mod,
    lemma_mod_division_less_than_divisor,
};
use vstd::arithmetic::mul::{lemma_mul_inequality, lemma_mul_nonnegative};
use crate::errors::BettingError;

verus! {

/// Identity of an account known to the host (a user, a mint, a treasury,
/// an oracle account).  The logic only ever compares these for equality.
pub type AccountId = u64;

/// Maximum length, in characters, of an asset symbol.
pub const MAX_SYMBOL_LEN: usize = 16;

/// Global configuration: created once at initialization, mutated only by
/// the admin.
#[derive(Clone, Copy, Debug, PartialEq, Eq, Structural)]
pub struct GlobalConfig {
    /// Admin authority who can pause and update settings.
    pub admin: AccountId,
    /// Treasury that receives protocol fees.
    pub treasury: AccountId,
    /// Fee in basis points (100 = 1%).
    pub fee_bps: u16,
    /// Reward for the caller who settles an epoch.
    pub settle_tip_lamports: u64,
    /// Seconds before epoch end when betting is disabled.
    pub cutoff_secs: u32,
    /// Duration of each epoch in seconds.
    pub epoch_length_secs: u32,
    /// Emergency pause flag (pauses bet placement only).
    pub paused: bool,
}

impl GlobalConfig {
    /// The configuration invariant: the fee can take at most the whole
    /// pool, and the cutoff falls strictly inside the epoch window.
    pub open spec fn wf(self) -> bool {
        &&& self.fee_bps <= 10000
        &&& 0 < self.cutoff_secs < self.epoch_length_secs
    }
}

/// Configuration for one tradable asset, created and updated by the admin.
#[derive(Clone, Debug, PartialEq, Eq)]
pub struct AssetConfig {
    /// Symbol identifier for the asset.
    pub asset_symbol: String,
    /// Oracle account bound to this asset.
    pub oracle_account: AccountId,
    /// Settlement-currency mint for this asset.
    pub mint: AccountId,
    /// Currently active epoch id.
    pub active_epoch_id: u64,
}

impl AssetConfig {
    pub open spec fn wf(self) -> bool {
        self.asset_symbol@.len() <= MAX_SYMBOL_LEN
    }
}

/// Lifecycle of one epoch.  `Settled` and `Invalid` are terminal.
#[derive(Clone, Copy, Debug, PartialEq, Eq, Structural)]
pub enum EpochStatus {
    /// Bets are being accepted.
    Open,
    /// Betting cutoff reached, waiting for settlement.
    Locked,
    /// Settlement complete, winners can claim.
    Settled,
    /// Oracle reading was unusable; no winner exists.
    Invalid,
}

/// Which side won after settlement.
#[derive(Clone, Copy, Debug, PartialEq, Eq, Structural)]
pub enum WinningSide {
    /// Price went up.
    Up,
    /// Price went down.
    Down,
    /// No winner (epoch not settled, or settlement was invalid).
    NoWinner,
}

/// The two-valued choice a bettor makes.
#[derive(Clone, Copy, Debug, PartialEq, Eq, Structural)]
pub enum BetSide {
    Up,
    Down,
}

/// One fixed-length betting round for one asset.
#[derive(Clone, Debug, PartialEq, Eq)]
pub struct Epoch {
    /// Asset symbol this epoch is for.
    pub asset_symbol: String,
    /// Sequential epoch identifier, `start_ts / epoch_length`.
    pub epoch_id: u64,
    /// Timestamp when the epoch started (betting opens).
    pub start_ts: i64,
    /// Timestamp when betting closes.
    pub cutoff_ts: i64,
    /// Timestamp when the epoch ends and can be settled.
    pub end_ts: i64,
    /// Settlement price mantissa.
    pub settle_price: i64,
    /// Settlement price exponent.
    pub settle_expo: i32,
    /// Current status of the epoch.
    pub status: EpochStatus,
    /// Which side won after settlement.
    pub winning_side: WinningSide,
    /// Total stake on Up.
    pub sum_up: u64,
    /// Total stake on Down.
    pub sum_down: u64,
    /// Settlement-currency mint for this epoch.
    pub mint: AccountId,
}

impl Epoch {
    /// The record invariant: the cutoff falls strictly inside the window.
    pub open spec fn wf(self) -> bool {
        self.start_ts < self.cutoff_ts < self.end_ts
    }
}

/// Everything staked in the epoch, both sides together.
pub open spec fn pool_total(epoch: Epoch) -> int {
    epoch.sum_up + epoch.sum_down
}

/// The stake standing on the winning side; zero when no winner exists.
pub open spec fn winning_pool(epoch: Epoch) -> int {
    match epoch.winning_side {
        WinningSide::Up => epoch.sum_up as int,
        WinningSide::Down => epoch.sum_down as int,
        WinningSide::NoWinner => 0,
    }
}

/// The protocol fee taken from a pool of `total` at `fee_bps` basis points.
pub open spec fn spec_fee_amount(total: int, fee_bps: int) -> int {
    (total * fee_bps) / 10000
}

/// What remains of a pool of `total` once the fee is deducted.
pub open spec fn spec_net_pool(total: int, fee_bps: int) -> int {
    total - spec_fee_amount(total, fee_bps)
}

/// A winner's share of `net_pool`, in proportion to their stake within the
/// winning side's pool.  Zero when the winning pool is empty: there is
/// nothing to divide and no division by zero.
pub open spec fn spec_payout(stake: int, net_pool: int, pool_winning_side: int) -> int {
    if pool_winning_side > 0 {
        (stake * net_pool) / pool_winning_side
    } else {
        0
    }
}

/// The fee never exceeds the pool it is taken from.
pub proof fn lemma_fee_le_total(total: int, fee_bps: int)
    requires
        0 <= total,
        0 <= fee_bps <= 10000,
    ensures
        0 <= spec_fee_amount(total, fee_bps) <= total,
{
    lemma_mul_inequality(fee_bps, 10000, total);
    lemma_div_is_ordered(total * fee_bps, total * 10000, 10000);
    lemma_div_multiples_vanish(total, 10000);
    lemma_div_is_ordered(0, total * fee_bps, 10000);
}

impl Epoch {
    /// The fee owed on this epoch's pool, or `Overflow` where the exact
    /// amount does not fit the pool-sum width.
    pub fn fee_amount(&self, fee_bps: u16) -> (r: Result<u64, BettingError>)
        requires
            fee_bps <= 10000,
        ensures
            (match r {
                Ok(f) => spec_fee_amount(pool_total(*self), fee_bps as int) <= u64::MAX
                    && f == spec_fee_amount(pool_total(*self), fee_bps as int),
                Err(e) => e == BettingError::Overflow
                    && spec_fee_amount(pool_total(*self), fee_bps as int) > u64::MAX,
            }),
    {
        let total: u128 = (self.sum_up as u128) + (self.sum_down as u128);
        assert((total as int) * (fee_bps as int) <= 36893488147419103230int * 10000int)
            by (nonlinear_arith)
            requires
                total <= 36893488147419103230,
                fee_bps <= 10000,
        ;
        let fee: u128 = total * (fee_bps as u128) / 10000;
        if fee > u64::MAX as u128 {
            Err(BettingError::Overflow)
        } else {
            Ok(fee as u64)
        }
    }

    /// What remains of this epoch's pool once the fee is deducted, or
    /// `Overflow` where that does not fit the pool-sum width.
    pub fn net_pool(&self, fee_bps: u16) -> (r: Result<u64, BettingError>)
        requires
            fee_bps <= 10000,
        ensures
            (match r {
                Ok(n) => spec_net_pool(pool_total(*self), fee_bps as int) <= u64::MAX
                    && n == spec_net_pool(pool_total(*self), fee_bps as int),
                Err(e) => e == BettingError::Overflow
                    && spec_net_pool(pool_total(*self), fee_bps as int) > u64::MAX,
            }),
    {
        let total: u128 = (self.sum_up as u128) + (self.sum_down as u128);
        assert((total as int) * (fee_bps as int) <= 36893488147419103230int * 10000int)
            by (nonlinear_arith)
            requires
                total <= 36893488147419103230,
                fee_bps <= 10000,
        ;
        let fee: u128 = total * (fee_bps as u128) / 10000;
        proof {
            lemma_fee_le_total(total as int, fee_bps as int);
        }
        let net: u128 = total - fee;
        if net > u64::MAX as u128 {
            Err(BettingError::Overflow)
        } else {
            Ok(net as u64)
        }
    }

    /// The payout owed to a winning stake of `stake`, under this epoch's
    /// final pool sums and winning side.  `Overflow` where the net pool or
    /// the payout does not fit the stake width.
    pub fn calculate_payout(&self, stake: u64, fee_bps: u16) -> (r: Result<u64, BettingError>)
        requires
            fee_bps <= 10000,
        ensures
            (match r {
                Ok(p) => {
                    &&& spec_net_pool(pool_total(*self), fee_bps as int) <= u64::MAX
                    &&& spec_payout(
                        stake as int,
                        spec_net_pool(pool_total(*self), fee_bps as int),
                        winning_pool(*self),
                    ) <= u64::MAX
                    &&& p == spec_payout(
                        stake as int,
                        spec_net_pool(pool_total(*self), fee_bps as int),
                        winning_pool(*self),
                    )
                },
                Err(e) => e == BettingError::Overflow
                    && (spec_net_pool(pool_total(*self), fee_bps as int) > u64::MAX
                        || spec_payout(
                            stake as int,
                            spec_net_pool(pool_total(*self), fee_bps as int),
                            winning_pool(*self),
                        ) > u64::MAX),
            }),
    {
        let net64: u64 = match self.net_pool(fee_bps) {
            Ok(n) => n,
            Err(e) => {
                return Err(e);
            },
        };
        let pool_win: u64 = match self.winning_side {
            WinningSide::Up => self.sum_up,
            WinningSide::Down => self.sum_down,
            WinningSide::NoWinner => {
                return Ok(0);
            },
        };
        if pool_win == 0 {
            return Ok(0);
        }
        assert((stake as int) * (net64 as int) <= 18446744073709551615int * 18446744073709551615int)
            by (nonlinear_arith)
            requires
                stake <= 18446744073709551615,
                net64 <= 18446744073709551615,
        ;
        let payout: u128 = (stake as u128) * (net64 as u128) / (pool_win as u128);
        if payout > u64::MAX as u128 {
            Err(BettingError::Overflow)
        } else {
            Ok(payout as u64)
        }
    }
}

/// One record per user per asset per epoch, created when the user first
/// bets and mutated exactly once, by a successful claim.
#[derive(Clone, Debug, PartialEq, Eq)]
pub struct UserBet {
    /// User who placed the bet.
    pub user: AccountId,
    /// Asset symbol.
    pub asset_symbol: String,
    /// Epoch id.
    pub epoch_id: u64,
    /// Side of the bet.
    pub side: BetSide,
    /// Amount staked; always positive.
    pub stake: u64,
    /// Whether the user has claimed their winnings.
    pub claimed: bool,
}

/// The epoch a timestamp falls into, on the fixed time grid.
pub open spec fn spec_epoch_id(ts: int, epoch_len: int) -> int
    recommends
        epoch_len > 0,
{
    ts / epoch_len
}

/// Where an epoch starts on the grid.
pub open spec fn spec_epoch_start(epoch_id: int, epoch_len: int) -> int {
    epoch_id * epoch_len
}

/// Converts a timestamp to the id of the epoch whose window holds it.
pub fn ts_to_epoch_id(ts: i64, epoch_length_secs: u32) -> (id: u64)
    requires
        ts >= 0,
        epoch_length_secs > 0,
    ensures
        id == spec_epoch_id(ts as int, epoch_length_secs as int),
{
    (ts as u64) / (epoch_length_secs as u64)
}

/// Converts an epoch id back to the timestamp its window starts at.
pub fn epoch_id_to_start_ts(epoch_id: u64, epoch_length_secs: u32) -> (ts: i64)
    requires
        epoch_length_secs > 0,
        epoch_id * epoch_length_secs <= i64::MAX,
    ensures
        ts == spec_epoch_start(epoch_id as int, epoch_length_secs as int),
{
    proof {
        lemma_mul_inequality(1, epoch_length_secs as int, epoch_id as int);
        lemma_mul_nonnegative(epoch_id as int, epoch_length_secs as int);
    }
    (epoch_id as i64) * (epoch_length_secs as i64)
}

/// The grid is exact: a timestamp lies inside the window of the epoch it
/// maps to, and that window starts at `epoch_id * epoch_len`.
pub proof fn lemma_epoch_grid(ts: int, epoch_len: int)
    requires
        ts >= 0,
        epoch_len > 0,
    ensures
        spec_epoch_start(spec_epoch_id(ts, epoch_len), epoch_len) <= ts,
        ts < spec_epoch_start(spec_epoch_id(ts, epoch_len), epoch_len) + epoch_len,
        0 <= spec_epoch_id(ts, epoch_len),
{
    lemma_fundamental_div_mod(ts, epoch_len);
    lemma_mod_division_less_than_divisor(ts, epoch_len);
    lemma_div_is_ordered(0, ts, epoch_len);
    assert(ts == epoch_len * (ts / epoch_len) + ts % epoch_len);
    assert(spec_epoch_start(spec_epoch_id(ts, epoch_len), epoch_len) == (ts / epoch_len)
        * epoch_len);
    assert((ts / epoch_len) * epoch_len == epoch_len * (ts / epoch_len)) by (nonlinear_arith);
}

/// Epoch ids never decrease as time advances.
pub proof fn lemma_epoch_id_monotonic(t1: int, t2: int, epoch_len: int)
    requires
        0 <= t1 <= t2,
        epoch_len > 0,
    ensures
        spec_epoch_id(t1, epoch_len) <= spec_epoch_id(t2, epoch_len),
{
    lemma_div_is_ordered(t1, t2, epoch_len);
}

} // verus!
