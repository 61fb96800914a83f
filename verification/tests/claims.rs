use betting::errors::BettingError;
use betting::instructions::claim::claim;
use betting::state::{BetSide, Epoch, EpochStatus, GlobalConfig, UserBet, WinningSide};

fn live_config() -> GlobalConfig {
    GlobalConfig {
        admin: 1,
        treasury: 2,
        fee_bps: 200,
        settle_tip_lamports: 0,
        cutoff_secs: 30,
        epoch_length_secs: 300,
        paused: false,
    }
}

fn settled_epoch() -> Epoch {
    Epoch {
        asset_symbol: String::from("BTCUSD"),
        epoch_id: 41,
        start_ts: 12300,
        cutoff_ts: 12570,
        end_ts: 12600,
        settle_price: 6_543_210,
        settle_expo: -2,
        status: EpochStatus::Settled,
        winning_side: WinningSide::Up,
        sum_up: 600,
        sum_down: 400,
        mint: 77,
    }
}

fn up_bet(stake: u64) -> UserBet {
    UserBet {
        user: 42,
        asset_symbol: String::from("BTCUSD"),
        epoch_id: 41,
        side: BetSide::Up,
        stake,
        claimed: false,
    }
}

#[test]
fn payout_follows_the_pari_mutuel_formula() {
    // sum_up=600, sum_down=400, fee_bps=200: total=1000, fee=20,
    // net_pool=980; an Up stake of 120 gets floor(120*980/600) = 196.
    let epoch = settled_epoch();
    assert_eq!(epoch.fee_amount(200), Ok(20));
    assert_eq!(epoch.net_pool(200), Ok(980));
    assert_eq!(epoch.calculate_payout(120, 200), Ok(196));

    let config = live_config();
    let mut bet = up_bet(120);
    let (payout, ev) = claim(&config, &epoch, &mut bet, 12650).unwrap();
    assert_eq!(payout, 196);
    assert!(bet.claimed);
    assert_eq!(ev.user, 42);
    assert_eq!(ev.asset_symbol, "BTCUSD");
    assert_eq!(ev.epoch_id, 41);
    assert_eq!(ev.payout, 196);
    assert_eq!(ev.timestamp, 12650);
}

#[test]
fn payout_rounds_down() {
    let epoch = settled_epoch();
    // floor(7 * 980 / 600) = floor(11.43..) = 11
    assert_eq!(epoch.calculate_payout(7, 200), Ok(11));
}

#[test]
fn whole_winning_pool_claims_at_most_the_net_pool() {
    let epoch = settled_epoch();
    // The whole winning side staked together gets floor(600*980/600) = 980.
    assert_eq!(epoch.calculate_payout(600, 200), Ok(980));
}

#[test]
fn claim_on_unsettled_epoch_fails_with_invalid_epoch_status() {
    let config = live_config();
    let mut epoch = settled_epoch();
    epoch.status = EpochStatus::Locked;
    let mut bet = up_bet(120);
    let r = claim(&config, &epoch, &mut bet, 12650);
    assert_eq!(r.unwrap_err(), BettingError::InvalidEpochStatus);
    assert!(!bet.claimed);
}

#[test]
fn claim_on_invalid_epoch_fails_with_invalid_epoch_status() {
    let config = live_config();
    let mut epoch = settled_epoch();
    epoch.status = EpochStatus::Invalid;
    epoch.winning_side = WinningSide::NoWinner;
    let mut bet = up_bet(120);
    let r = claim(&config, &epoch, &mut bet, 12650);
    assert_eq!(r.unwrap_err(), BettingError::InvalidEpochStatus);
}

#[test]
fn loser_cannot_claim() {
    let config = live_config();
    let epoch = settled_epoch();
    let mut bet = up_bet(120);
    bet.side = BetSide::Down;
    let r = claim(&config, &epoch, &mut bet, 12650);
    assert_eq!(r.unwrap_err(), BettingError::NotWinner);
    assert!(!bet.claimed);
}

#[test]
fn nobody_claims_when_no_winner_exists() {
    let config = live_config();
    let mut epoch = settled_epoch();
    epoch.winning_side = WinningSide::NoWinner;
    let mut bet = up_bet(120);
    let r = claim(&config, &epoch, &mut bet, 12650);
    assert_eq!(r.unwrap_err(), BettingError::NotWinner);
}

#[test]
fn second_claim_fails_with_already_claimed_and_pays_nothing() {
    let config = live_config();
    let epoch = settled_epoch();
    let mut bet = up_bet(120);
    let (payout, _) = claim(&config, &epoch, &mut bet, 12650).unwrap();
    assert_eq!(payout, 196);
    let after_first = bet.clone();
    let r2 = claim(&config, &epoch, &mut bet, 12651);
    assert_eq!(r2.unwrap_err(), BettingError::AlreadyClaimed);
    assert_eq!(bet, after_first);
}

#[test]
fn zero_winning_pool_fails_every_claim_without_dividing_by_zero() {
    let config = live_config();
    let mut epoch = settled_epoch();
    epoch.winning_side = WinningSide::Down;
    epoch.sum_down = 0;
    let mut bet = up_bet(120);
    bet.side = BetSide::Down;
    let r = claim(&config, &epoch, &mut bet, 12650);
    assert_eq!(r.unwrap_err(), BettingError::ZeroWinningPool);
    assert!(!bet.claimed);
}

#[test]
fn dust_stake_whose_payout_rounds_to_zero_is_refused() {
    let config = live_config();
    let mut epoch = settled_epoch();
    // A huge winning pool against a tiny net pool: floor rounds to zero.
    epoch.sum_up = u64::MAX;
    epoch.sum_down = 0;
    let mut bet = up_bet(1);
    let r = claim(&config, &epoch, &mut bet, 12650);
    assert_eq!(r.unwrap_err(), BettingError::ZeroWinningPool);
}

#[test]
fn payout_wider_than_the_stake_width_fails_with_overflow() {
    let epoch = Epoch {
        sum_up: 1,
        sum_down: u64::MAX,
        ..settled_epoch()
    };
    // net is nearly 2^65: it no longer fits the pool-sum width.
    assert_eq!(epoch.calculate_payout(1, 0), Err(BettingError::Overflow));
}
