//! One complete round, driven exactly as the host would drive it.

use betting::errors::BettingError;
use betting::instructions::close_epoch::{close_epoch, CloseOutcome};
use betting::instructions::claim::claim;
use betting::instructions::create_epoch::create_epoch;
use betting::instructions::initialize::initialize;
use betting::instructions::lock_epoch::lock_epoch;
use betting::instructions::place_bet::place_bet;
use betting::instructions::set_asset_feed::set_asset_feed;
use betting::state::BetSide;

#[test]
fn a_full_round_from_creation_to_claims() {
    let config = initialize(1, 2, 200, 0, 30, 300);
    let mut asset = set_asset_feed(&config, 1, String::from("BTCUSD"), 900, 77).unwrap();

    let now = 12345;
    let (mut epoch, _) = create_epoch(&config, &mut asset, now);

    let (mut alice, _) = place_bet(&config, &mut epoch, 10, 77, BetSide::Up, 120, 12346).unwrap();
    let (mut bob, _) = place_bet(&config, &mut epoch, 11, 77, BetSide::Up, 480, 12350).unwrap();
    let (mut carol, _) = place_bet(&config, &mut epoch, 12, 77, BetSide::Down, 400, 12400).unwrap();
    assert_eq!(epoch.sum_up + epoch.sum_down, 1000);

    lock_epoch(&mut epoch, 12570).unwrap().unwrap();

    let mut img = vec![0u8; 32];
    img[16..24].copy_from_slice(&42i64.to_le_bytes());
    img[24..28].copy_from_slice(&(-2i32).to_le_bytes());
    let outcome = close_epoch(&config, &asset, &mut epoch, 900, &img, 0, 12600).unwrap();
    let fee = match outcome {
        CloseOutcome::Settled { fee_transfer, .. } => fee_transfer,
        other => panic!("expected a settlement, got {:?}", other),
    };
    assert_eq!(fee, 20);

    // Winners split the net pool of 980 in proportion to their stakes.
    let (paid_alice, _) = claim(&config, &epoch, &mut alice, 12700).unwrap();
    let (paid_bob, _) = claim(&config, &epoch, &mut bob, 12700).unwrap();
    assert_eq!(paid_alice, 196);
    assert_eq!(paid_bob, 784);
    // Everything paid out, plus the fee, never exceeds what was staked.
    assert!(paid_alice + paid_bob + fee <= 1000);

    // The loser gets nothing, and nobody collects twice.
    assert_eq!(
        claim(&config, &epoch, &mut carol, 12700).unwrap_err(),
        BettingError::NotWinner
    );
    assert_eq!(
        claim(&config, &epoch, &mut alice, 12700).unwrap_err(),
        BettingError::AlreadyClaimed
    );
}
