//! Settling an epoch from an oracle reading, once its end time has
//! passed.  Callable by anyone; idempotent once the epoch is terminal.
//!
//! An unusable oracle image is not a failure: the epoch moves to its
//! `Invalid` terminal state, no fee is taken and no winner is recorded,
//! so settlement can never get stuck on bad oracle data.

use vstd::prelude::*;
use crate::errors::BettingError;
use crate::events::EpochSettled;
use crate::oracle::{oracle_usable, read_price, spec_settle_expo, spec_settle_price};
use crate::state::{
    pool_total, spec_fee_amount, spec_net_pool, AccountId, AssetConfig, Epoch, EpochStatus,
    GlobalConfig, WinningSide,
};

verus! {

/// The winning side a settlement price determines: a positive price means
/// Up won, any other means Down won.
pub open spec fn spec_winner(price: int) -> WinningSide {
    if price > 0 {
        WinningSide::Up
    } else {
        WinningSide::Down
    }
}

/// What settlement does to an epoch record.  A terminal record stays put;
/// an unusable oracle image sends the record to `Invalid`; otherwise the
/// reading and the winner it determines are recorded and the record is
/// `Settled`.  Pool sums never move.
pub open spec fn close_step(epoch: Epoch, data: Seq<u8>) -> Epoch {
    if epoch.status is Settled || epoch.status is Invalid {
        epoch
    } else if !oracle_usable(data) {
        Epoch { status: EpochStatus::Invalid, ..epoch }
    } else {
        Epoch {
            status: EpochStatus::Settled,
            settle_price: spec_settle_price(data) as i64,
            settle_expo: spec_settle_expo(data) as i32,
            winning_side: spec_winner(spec_settle_price(data)),
            ..epoch
        }
    }
}

/// Why settlement fails the whole transaction, with the checks in the
/// order they run.  `None` covers the successful cases: a terminal no-op,
/// a transition to `Invalid`, or a full settlement.
pub open spec fn close_epoch_error(
    config: GlobalConfig,
    asset_config: AssetConfig,
    epoch: Epoch,
    oracle_account: AccountId,
    data: Seq<u8>,
    now: i64,
) -> Option<BettingError> {
    if now < epoch.end_ts {
        Some(BettingError::NotYetEnded)
    } else if epoch.status is Settled || epoch.status is Invalid {
        None
    } else if oracle_account != asset_config.oracle_account {
        Some(BettingError::OracleAccountMismatch)
    } else if !oracle_usable(data) {
        None
    } else if spec_fee_amount(pool_total(epoch), config.fee_bps as int) > u64::MAX
        || spec_net_pool(pool_total(epoch), config.fee_bps as int) > u64::MAX {
        Some(BettingError::Overflow)
    } else {
        None
    }
}

/// How a successful settlement call ended, and what the host owes for it.
#[derive(Clone, Debug, PartialEq, Eq)]
pub enum CloseOutcome {
    /// The epoch was already terminal: nothing changed, nothing is owed.
    AlreadyFinal,
    /// The oracle image was unusable: the epoch is now `Invalid`, all
    /// stakes become refundable, nothing is owed.
    MarkedInvalid,
    /// The epoch is now `Settled`.  The host owes `fee_transfer` from the
    /// escrow to the treasury, owes `tip` from the escrow account's
    /// balance to the caller, and emits the notification.
    Settled { fee_transfer: u64, tip: u64, event: EpochSettled },
}

/// Settles the epoch against the oracle image `price_data`, read from the
/// account `oracle_account` which must be the one bound to the asset.
/// `vault_lamports` is the balance the escrow account can pay a tip from:
/// the tip is best-effort and skipped, never an error, when that balance
/// is short.
pub fn close_epoch(
    config: &GlobalConfig,
    asset_config: &AssetConfig,
    epoch: &mut Epoch,
    oracle_account: AccountId,
    price_data: &Vec<u8>,
    vault_lamports: u64,
    now: i64,
) -> (r: Result<CloseOutcome, BettingError>)
    requires
        config.fee_bps <= 10000,
    ensures
        (match r {
            Ok(outcome) => {
                &&& close_epoch_error(
                    *config,
                    *asset_config,
                    *old(epoch),
                    oracle_account,
                    price_data@,
                    now,
                ) is None
                &&& now >= old(epoch).end_ts
                &&& *final(epoch) == close_step(*old(epoch), price_data@)
                &&& (match outcome {
                    CloseOutcome::AlreadyFinal => old(epoch).status is Settled || old(
                        epoch,
                    ).status is Invalid,
                    CloseOutcome::MarkedInvalid => {
                        &&& !(old(epoch).status is Settled) && !(old(epoch).status is Invalid)
                        &&& !oracle_usable(price_data@)
                    },
                    CloseOutcome::Settled { fee_transfer, tip, event } => {
                        &&& !(old(epoch).status is Settled) && !(old(epoch).status is Invalid)
                        &&& oracle_usable(price_data@)
                        &&& fee_transfer == spec_fee_amount(
                            pool_total(*old(epoch)),
                            config.fee_bps as int,
                        )
                        &&& tip == (if config.settle_tip_lamports > 0 && vault_lamports
                            >= config.settle_tip_lamports {
                            config.settle_tip_lamports
                        } else {
                            0
                        })
                        &&& event.asset_symbol@ == old(epoch).asset_symbol@
                        &&& event.epoch_id == old(epoch).epoch_id
                        &&& event.settle_price == spec_settle_price(price_data@)
                        &&& event.settle_expo == spec_settle_expo(price_data@)
                        &&& event.winning_side == spec_winner(spec_settle_price(price_data@))
                        &&& event.fee_amount == fee_transfer
                        &&& event.net_pool == spec_net_pool(
                            pool_total(*old(epoch)),
                            config.fee_bps as int,
                        )
                        &&& event.timestamp == now
                    },
                })
            },
            Err(e) => {
                &&& close_epoch_error(
                    *config,
                    *asset_config,
                    *old(epoch),
                    oracle_account,
                    price_data@,
                    now,
                ) == Some(e)
                &&& *final(epoch) == *old(epoch)
            },
        }),
{
    if now < epoch.end_ts {
        return Err(BettingError::NotYetEnded);
    }
    if epoch.status == EpochStatus::Settled || epoch.status == EpochStatus::Invalid {
        return Ok(CloseOutcome::AlreadyFinal);
    }
    if oracle_account != asset_config.oracle_account {
        return Err(BettingError::OracleAccountMismatch);
    }
    let reading = match read_price(price_data) {
        Some(pe) => pe,
        None => {
            epoch.status = EpochStatus::Invalid;
            return Ok(CloseOutcome::MarkedInvalid);
        },
    };
    let settle_price = reading.0;
    let settle_expo = reading.1;
    if settle_price == 0 {
        epoch.status = EpochStatus::Invalid;
        return Ok(CloseOutcome::MarkedInvalid);
    }
    let fee_transfer = match epoch.fee_amount(config.fee_bps) {
        Ok(f) => f,
        Err(e) => {
            return Err(e);
        },
    };
    let net = match epoch.net_pool(config.fee_bps) {
        Ok(n) => n,
        Err(e) => {
            return Err(e);
        },
    };
    let tip = if config.settle_tip_lamports > 0 && vault_lamports >= config.settle_tip_lamports {
        config.settle_tip_lamports
    } else {
        0
    };
    epoch.settle_price = settle_price;
    epoch.settle_expo = settle_expo;
    epoch.winning_side = if settle_price > 0 {
        WinningSide::Up
    } else {
        WinningSide::Down
    };
    epoch.status = EpochStatus::Settled;
    let event = EpochSettled {
        asset_symbol: epoch.asset_symbol.clone(),
        epoch_id: epoch.epoch_id,
        settle_price,
        settle_expo,
        winning_side: epoch.winning_side,
        fee_amount: fee_transfer,
        net_pool: net,
        timestamp: now,
    };
    Ok(CloseOutcome::Settled { fee_transfer, tip, event })
}

/// Settling twice is the same as settling once: `close_step` always lands
/// in a terminal status, and on a terminal record it is the identity, so
/// a repeated `close_epoch` call — with any later oracle image — returns
/// `AlreadyFinal`, mutates nothing, takes no second fee and pays no
/// second tip.
pub proof fn lemma_close_idempotent(epoch: Epoch, data1: Seq<u8>, data2: Seq<u8>)
    ensures
        close_step(close_step(epoch, data1), data2) == close_step(epoch, data1),
{
}

} // verus!
