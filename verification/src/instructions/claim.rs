//! Paying a winning bet out of the settled pool, exactly once.

use vstd::prelude::*;
use crate::errors::BettingError;
use crate::events::Claimed;
use crate::state::{
    lemma_fee_le_total, pool_total, spec_net_pool, spec_payout, winning_pool, BetSide, Epoch,
    EpochStatus, GlobalConfig, UserBet, WinningSide,
};

verus! {

/// Whether a bet on `side` won under `winning`.  A bet can never win when
/// no winner exists.
pub open spec fn is_winning_side(side: BetSide, winning: WinningSide) -> bool {
    match (winning, side) {
        (WinningSide::Up, BetSide::Up) => true,
        (WinningSide::Down, BetSide::Down) => true,
        _ => false,
    }
}

/// The payout a bet is owed from a settled epoch's final pools.
pub open spec fn spec_claim_payout(config: GlobalConfig, epoch: Epoch, bet: UserBet) -> int {
    spec_payout(
        bet.stake as int,
        spec_net_pool(pool_total(epoch), config.fee_bps as int),
        winning_pool(epoch),
    )
}

/// Why a claim is refused, with the checks in the order they run.
pub open spec fn claim_error(config: GlobalConfig, epoch: Epoch, bet: UserBet) -> Option<
    BettingError,
> {
    if !(epoch.status is Settled) {
        Some(BettingError::InvalidEpochStatus)
    } else if bet.claimed {
        Some(BettingError::AlreadyClaimed)
    } else if !is_winning_side(bet.side, epoch.winning_side) {
        Some(BettingError::NotWinner)
    } else if spec_net_pool(pool_total(epoch), config.fee_bps as int) > u64::MAX
        || spec_claim_payout(config, epoch, bet) > u64::MAX {
        Some(BettingError::Overflow)
    } else if spec_claim_payout(config, epoch, bet) == 0 {
        Some(BettingError::ZeroWinningPool)
    } else {
        None
    }
}

/// Claims the winnings of `user_bet` against its settled epoch.  On
/// success the host owes one transfer — the payout from the escrow to the
/// bettor — and the record's claimed flag is set, which makes every
/// repeat of this call fail with `AlreadyClaimed`: payout is exactly
/// once.  On any error the record is untouched and no transfer is owed.
pub fn claim(config: &GlobalConfig, epoch: &Epoch, user_bet: &mut UserBet, now: i64) -> (r: Result<
    (u64, Claimed),
    BettingError,
>)
    requires
        config.fee_bps <= 10000,
    ensures
        (match r {
            Ok(pc) => {
                let payout = pc.0;
                let ev = pc.1;
                &&& claim_error(*config, *epoch, *old(user_bet)) is None
                &&& payout == spec_claim_payout(*config, *epoch, *old(user_bet))
                &&& payout > 0
                &&& *final(user_bet) == (UserBet { claimed: true, ..*old(user_bet) })
                &&& ev.user == old(user_bet).user
                &&& ev.asset_symbol@ == old(user_bet).asset_symbol@
                &&& ev.epoch_id == old(user_bet).epoch_id
                &&& ev.payout == payout
                &&& ev.timestamp == now
            },
            Err(e) => {
                &&& claim_error(*config, *epoch, *old(user_bet)) == Some(e)
                &&& *final(user_bet) == *old(user_bet)
            },
        }),
{
    if epoch.status != EpochStatus::Settled {
        return Err(BettingError::InvalidEpochStatus);
    }
    if user_bet.claimed {
        return Err(BettingError::AlreadyClaimed);
    }
    let won = match (epoch.winning_side, user_bet.side) {
        (WinningSide::Up, BetSide::Up) => true,
        (WinningSide::Down, BetSide::Down) => true,
        _ => false,
    };
    if !won {
        return Err(BettingError::NotWinner);
    }
    let payout = match epoch.calculate_payout(user_bet.stake, config.fee_bps) {
        Ok(p) => p,
        Err(e) => {
            return Err(e);
        },
    };
    if payout == 0 {
        return Err(BettingError::ZeroWinningPool);
    }
    user_bet.claimed = true;
    let ev = Claimed {
        user: user_bet.user,
        asset_symbol: user_bet.asset_symbol.clone(),
        epoch_id: user_bet.epoch_id,
        payout,
        timestamp: now,
    };
    Ok((payout, ev))
}

/// The zero-pool edge case: when the winning side's pool is empty —
/// unreachable in practice, since a winning bet put its own stake there —
/// every claim against it is refused with `ZeroWinningPool`; nothing
/// divides by zero and nothing is paid.
pub proof fn lemma_zero_winning_pool_claim(config: GlobalConfig, epoch: Epoch, bet: UserBet)
    requires
        config.fee_bps <= 10000,
        epoch.status is Settled,
        !bet.claimed,
        is_winning_side(bet.side, epoch.winning_side),
        winning_pool(epoch) == 0,
    ensures
        claim_error(config, epoch, bet) == Some(BettingError::ZeroWinningPool),
{
    lemma_fee_le_total(pool_total(epoch), config.fee_bps as int);
}

/// Exactly-once payout: once a claim has succeeded, the very same claim —
/// same user record, same epoch, same configuration — is refused with
/// `AlreadyClaimed`, whatever else holds, so no second transfer is ever
/// owed.
pub proof fn lemma_claim_exactly_once(config: GlobalConfig, epoch: Epoch, bet: UserBet)
    requires
        claim_error(config, epoch, bet) is None,
    ensures
        claim_error(config, epoch, (UserBet { claimed: true, ..bet })) == Some(
            BettingError::AlreadyClaimed,
        ),
{
}

} // verus!
