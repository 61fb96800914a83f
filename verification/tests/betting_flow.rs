use betting::errors::BettingError;
use betting::instructions::lock_epoch::lock_epoch;
use betting::instructions::place_bet::place_bet;
use betting::state::{BetSide, Epoch, EpochStatus, GlobalConfig, WinningSide};

fn live_config() -> GlobalConfig {
    GlobalConfig {
        admin: 1,
        treasury: 2,
        fee_bps: 200,
        settle_tip_lamports: 0,
        cutoff_secs: 30,
        epoch_length_secs: 300,
        paused: false,
    }
}

fn open_epoch() -> Epoch {
    Epoch {
        asset_symbol: String::from("BTCUSD"),
        epoch_id: 41,
        start_ts: 12300,
        cutoff_ts: 12570,
        end_ts: 12600,
        settle_price: 0,
        settle_expo: 0,
        status: EpochStatus::Open,
        winning_side: WinningSide::NoWinner,
        sum_up: 0,
        sum_down: 0,
        mint: 77,
    }
}

#[test]
fn successful_bet_updates_one_pool_and_records_the_stake() {
    let config = live_config();
    let mut epoch = open_epoch();
    let (bet, ev) = place_bet(&config, &mut epoch, 42, 77, BetSide::Up, 120, 12400).unwrap();
    assert_eq!(epoch.sum_up, 120);
    assert_eq!(epoch.sum_down, 0);
    assert_eq!(bet.user, 42);
    assert_eq!(bet.asset_symbol, "BTCUSD");
    assert_eq!(bet.epoch_id, 41);
    assert_eq!(bet.side, BetSide::Up);
    assert_eq!(bet.stake, 120);
    assert!(!bet.claimed);
    assert_eq!(ev.user, 42);
    assert_eq!(ev.amount, 120);
    assert_eq!(ev.timestamp, 12400);
}

#[test]
fn pool_sums_conserve_every_stake_placed() {
    let config = live_config();
    let mut epoch = open_epoch();
    let stakes = [
        (1u64, BetSide::Up, 600u64),
        (2, BetSide::Down, 250),
        (3, BetSide::Down, 150),
        (4, BetSide::Up, 7),
    ];
    let mut placed = 0u64;
    for (user, side, amount) in stakes {
        place_bet(&config, &mut epoch, user, 77, side, amount, 12400).unwrap();
        placed += amount;
        assert_eq!(epoch.sum_up + epoch.sum_down, placed);
    }
    assert_eq!(epoch.sum_up, 607);
    assert_eq!(epoch.sum_down, 400);
}

#[test]
fn bet_when_paused_fails_with_paused() {
    let mut config = live_config();
    config.paused = true;
    let mut epoch = open_epoch();
    let r = place_bet(&config, &mut epoch, 42, 77, BetSide::Up, 120, 12400);
    assert_eq!(r.unwrap_err(), BettingError::Paused);
    assert_eq!(epoch, open_epoch());
}

#[test]
fn zero_amount_fails_before_anything_else_is_looked_at() {
    let config = live_config();
    // Cutoff already passed and the mint is wrong too: the amount check
    // still answers first.
    let mut epoch = open_epoch();
    let r = place_bet(&config, &mut epoch, 42, 99, BetSide::Up, 0, 12580);
    assert_eq!(r.unwrap_err(), BettingError::InvalidBetAmount);
    assert_eq!(epoch, open_epoch());
}

#[test]
fn bet_after_cutoff_fails_with_betting_closed() {
    let config = live_config();
    // At the cutoff itself, and before the end: a valid amount and the
    // right mint still cannot get in.
    let mut epoch = open_epoch();
    let r = place_bet(&config, &mut epoch, 42, 77, BetSide::Up, 120, 12570);
    assert_eq!(r.unwrap_err(), BettingError::BettingClosed);
    let r2 = place_bet(&config, &mut epoch, 42, 77, BetSide::Up, 120, 12599);
    assert_eq!(r2.unwrap_err(), BettingError::BettingClosed);
    assert_eq!(epoch, open_epoch());
}

#[test]
fn bet_on_locked_epoch_fails_with_invalid_epoch_status() {
    let config = live_config();
    let mut epoch = open_epoch();
    epoch.status = EpochStatus::Locked;
    let r = place_bet(&config, &mut epoch, 42, 77, BetSide::Up, 120, 12400);
    assert_eq!(r.unwrap_err(), BettingError::InvalidEpochStatus);
}

#[test]
fn bet_with_wrong_mint_fails_with_wrong_mint() {
    let config = live_config();
    let mut epoch = open_epoch();
    let r = place_bet(&config, &mut epoch, 42, 99, BetSide::Up, 120, 12400);
    assert_eq!(r.unwrap_err(), BettingError::WrongMint);
    assert_eq!(epoch.sum_up, 0);
}

#[test]
fn overflowing_stake_fails_and_leaves_sums_unchanged() {
    let config = live_config();
    let mut epoch = open_epoch();
    epoch.sum_up = u64::MAX - 10;
    epoch.sum_down = 5;
    let r = place_bet(&config, &mut epoch, 42, 77, BetSide::Up, 11, 12400);
    assert_eq!(r.unwrap_err(), BettingError::Overflow);
    assert_eq!(epoch.sum_up, u64::MAX - 10);
    assert_eq!(epoch.sum_down, 5);
    // The other side still has room.
    let r2 = place_bet(&config, &mut epoch, 42, 77, BetSide::Down, 11, 12400);
    assert!(r2.is_ok());
    assert_eq!(epoch.sum_down, 16);
}

#[test]
fn lock_before_cutoff_fails_with_not_yet_cutoff() {
    let mut epoch = open_epoch();
    let r = lock_epoch(&mut epoch, 12569);
    assert_eq!(r.unwrap_err(), BettingError::NotYetCutoff);
    assert_eq!(epoch.status, EpochStatus::Open);
}

#[test]
fn lock_transitions_open_and_snapshots_the_pools() {
    let mut epoch = open_epoch();
    epoch.sum_up = 600;
    epoch.sum_down = 400;
    let ev = lock_epoch(&mut epoch, 12570).unwrap().unwrap();
    assert_eq!(epoch.status, EpochStatus::Locked);
    assert_eq!(ev.asset_symbol, "BTCUSD");
    assert_eq!(ev.epoch_id, 41);
    assert_eq!(ev.timestamp, 12570);
    assert_eq!(ev.sum_up, 600);
    assert_eq!(ev.sum_down, 400);
}

#[test]
fn second_lock_is_a_no_op_with_no_second_notification() {
    let mut epoch = open_epoch();
    assert!(lock_epoch(&mut epoch, 12570).unwrap().is_some());
    let after_first = epoch.clone();
    let second = lock_epoch(&mut epoch, 12571).unwrap();
    assert!(second.is_none());
    assert_eq!(epoch, after_first);
}
