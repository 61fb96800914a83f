//! Accepting a stake on one side of an open epoch.
//!
//! On success the host owes one transfer — `amount` from the bettor into
//! the asset's escrow — and must check-and-insert the returned bet record
//! under its (user, asset, epoch) key; the duplicate-key rule there is
//! what limits a user to one stake per epoch.

use vstd::prelude::*;
use crate::errors::BettingError;
use crate::events::BetPlaced;
use crate::state::{pool_total, AccountId, BetSide, Epoch, EpochStatus, GlobalConfig, UserBet};

verus! {

/// The pool standing on `side`.
pub open spec fn side_sum(epoch: Epoch, side: BetSide) -> u64 {
    match side {
        BetSide::Up => epoch.sum_up,
        BetSide::Down => epoch.sum_down,
    }
}

/// What a successful bet does to the epoch record: `amount` joins the
/// chosen side's pool and nothing else moves.
pub open spec fn apply_bet(epoch: Epoch, side: BetSide, amount: u64) -> Epoch
    recommends
        side_sum(epoch, side) + amount <= u64::MAX,
{
    match side {
        BetSide::Up => Epoch { sum_up: (epoch.sum_up + amount) as u64, ..epoch },
        BetSide::Down => Epoch { sum_down: (epoch.sum_down + amount) as u64, ..epoch },
    }
}

/// Why a bet is refused, with the checks in the order they run: a later
/// error is only reachable when every earlier check passed.
pub open spec fn place_bet_error(
    config: GlobalConfig,
    epoch: Epoch,
    vault_mint: AccountId,
    side: BetSide,
    amount: u64,
    now: i64,
) -> Option<BettingError> {
    if config.paused {
        Some(BettingError::Paused)
    } else if amount == 0 {
        Some(BettingError::InvalidBetAmount)
    } else if !(epoch.status is Open) {
        Some(BettingError::InvalidEpochStatus)
    } else if now >= epoch.cutoff_ts {
        Some(BettingError::BettingClosed)
    } else if vault_mint != epoch.mint {
        Some(BettingError::WrongMint)
    } else if side_sum(epoch, side) + amount > u64::MAX {
        Some(BettingError::Overflow)
    } else {
        None
    }
}

/// Places `amount` on `side` for `user`.  `vault_mint` is the mint of the
/// escrow account the stake would be paid into; it must match the epoch's
/// bound settlement currency.  On any error the epoch is untouched and no
/// transfer is owed.
pub fn place_bet(
    config: &GlobalConfig,
    epoch: &mut Epoch,
    user: AccountId,
    vault_mint: AccountId,
    side: BetSide,
    amount: u64,
    now: i64,
) -> (r: Result<(UserBet, BetPlaced), BettingError>)
    ensures
        (match r {
            Ok(br) => {
                let bet = br.0;
                let ev = br.1;
                &&& place_bet_error(*config, *old(epoch), vault_mint, side, amount, now) is None
                &&& *final(epoch) == apply_bet(*old(epoch), side, amount)
                &&& bet.user == user
                &&& bet.asset_symbol@ == old(epoch).asset_symbol@
                &&& bet.epoch_id == old(epoch).epoch_id
                &&& bet.side == side
                &&& bet.stake == amount
                &&& !bet.claimed
                &&& ev.user == user
                &&& ev.asset_symbol@ == old(epoch).asset_symbol@
                &&& ev.epoch_id == old(epoch).epoch_id
                &&& ev.side == side
                &&& ev.amount == amount
                &&& ev.timestamp == now
            },
            Err(e) => {
                &&& place_bet_error(*config, *old(epoch), vault_mint, side, amount, now) == Some(e)
                &&& *final(epoch) == *old(epoch)
            },
        }),
{
    if config.paused {
        return Err(BettingError::Paused);
    }
    if amount == 0 {
        return Err(BettingError::InvalidBetAmount);
    }
    if epoch.status != EpochStatus::Open {
        return Err(BettingError::InvalidEpochStatus);
    }
    if now >= epoch.cutoff_ts {
        return Err(BettingError::BettingClosed);
    }
    if vault_mint != epoch.mint {
        return Err(BettingError::WrongMint);
    }
    match side {
        BetSide::Up => {
            if epoch.sum_up > u64::MAX - amount {
                return Err(BettingError::Overflow);
            }
            epoch.sum_up = epoch.sum_up + amount;
        },
        BetSide::Down => {
            if epoch.sum_down > u64::MAX - amount {
                return Err(BettingError::Overflow);
            }
            epoch.sum_down = epoch.sum_down + amount;
        },
    }
    let bet = UserBet {
        user,
        asset_symbol: epoch.asset_symbol.clone(),
        epoch_id: epoch.epoch_id,
        side,
        stake: amount,
        claimed: false,
    };
    let ev = BetPlaced {
        user,
        asset_symbol: epoch.asset_symbol.clone(),
        epoch_id: epoch.epoch_id,
        side,
        amount,
        timestamp: now,
    };
    Ok((bet, ev))
}

/// The sum of the stakes in a sequence of bets.
pub open spec fn stakes_sum(bets: Seq<(BetSide, u64)>) -> int
    decreases bets.len(),
{
    if bets.len() == 0 {
        0
    } else {
        bets[0].1 + stakes_sum(bets.drop_first())
    }
}

/// The epoch record after a sequence of successful bets, oldest first.
pub open spec fn apply_bets(epoch: Epoch, bets: Seq<(BetSide, u64)>) -> Epoch
    decreases bets.len(),
{
    if bets.len() == 0 {
        epoch
    } else {
        apply_bets(apply_bet(epoch, bets[0].0, bets[0].1), bets.drop_first())
    }
}

/// A sum of stakes is never negative.
pub proof fn lemma_stakes_sum_nonneg(bets: Seq<(BetSide, u64)>)
    ensures
        stakes_sum(bets) >= 0,
    decreases bets.len(),
{
    if bets.len() > 0 {
        lemma_stakes_sum_nonneg(bets.drop_first());
    }
}

/// Pool conservation: after any sequence of successful bets that fits the
/// pool-sum width, the two pool sums together hold exactly the starting
/// total plus every stake placed — stakes are moved into the pools, never
/// created or lost.
pub proof fn lemma_pool_conservation(epoch: Epoch, bets: Seq<(BetSide, u64)>)
    requires
        pool_total(epoch) + stakes_sum(bets) <= u64::MAX,
    ensures
        pool_total(apply_bets(epoch, bets)) == pool_total(epoch) + stakes_sum(bets),
    decreases bets.len(),
{
    if bets.len() > 0 {
        lemma_stakes_sum_nonneg(bets.drop_first());
        let stepped = apply_bet(epoch, bets[0].0, bets[0].1);
        assert(pool_total(stepped) == pool_total(epoch) + bets[0].1);
        lemma_pool_conservation(stepped, bets.drop_first());
    }
}

/// The rejection order the interface promises: with the protocol live and
/// the epoch open, a bet placed at or after the cutoff fails with
/// `BettingClosed` whatever its amount's validity, its mint and the pool
/// state; and a zero amount fails with `InvalidBetAmount` before the
/// timing, mint or overflow checks are ever consulted.
pub proof fn lemma_bet_rejection_ordering(
    config: GlobalConfig,
    epoch: Epoch,
    vault_mint: AccountId,
    side: BetSide,
    amount: u64,
    now: i64,
)
    requires
        !config.paused,
        epoch.status is Open,
    ensures
        amount > 0 && now >= epoch.cutoff_ts ==> place_bet_error(
            config,
            epoch,
            vault_mint,
            side,
            amount,
            now,
        ) == Some(BettingError::BettingClosed),
        amount == 0 ==> place_bet_error(config, epoch, vault_mint, side, amount, now) == Some(
            BettingError::InvalidBetAmount,
        ),
{
}

} // verus!
