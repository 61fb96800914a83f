//! Creating the epoch whose window on the time grid holds the present
//! moment.  Anyone may; the grid guarantees at most one valid id per
//! instant, and the keyed store's duplicate-key rule makes a second
//! creation of the same epoch fail.

use vstd::prelude::*;
use vstd::arithmetic::div_mod::{lemma_fundamental_div_mod, lemma_mod_division_less_than_divisor};
use crate::events::EpochCreated;
use crate::state::{
    epoch_id_to_start_ts, spec_epoch_id, spec_epoch_start, ts_to_epoch_id, AssetConfig, Epoch,
    EpochStatus, GlobalConfig, WinningSide,
};

verus! {

/// Opens the epoch for `now` on the asset's grid: id `now / L`, window
/// `[id*L, id*L + L)`, betting cutoff `cutoff_secs` before the end.  The
/// new record starts `Open` with empty pools, bound to the asset's mint,
/// and the asset's active-epoch pointer moves to it.
pub fn create_epoch(config: &GlobalConfig, asset_config: &mut AssetConfig, now: i64) -> (r: (
    Epoch,
    EpochCreated,
))
    requires
        0 < config.cutoff_secs < config.epoch_length_secs,
        now >= 0,
        now + config.epoch_length_secs <= i64::MAX,
    ensures
        ({
            let epoch = r.0;
            let ev = r.1;
            let id = spec_epoch_id(now as int, config.epoch_length_secs as int);
            let start = spec_epoch_start(id, config.epoch_length_secs as int);
            &&& epoch.epoch_id == id
            &&& epoch.start_ts == start
            &&& epoch.end_ts == start + config.epoch_length_secs
            &&& epoch.cutoff_ts == epoch.end_ts - config.cutoff_secs
            &&& epoch.start_ts <= now < epoch.end_ts
            &&& epoch.status is Open
            &&& epoch.winning_side is NoWinner
            &&& epoch.sum_up == 0
            &&& epoch.sum_down == 0
            &&& epoch.settle_price == 0
            &&& epoch.settle_expo == 0
            &&& epoch.asset_symbol@ == old(asset_config).asset_symbol@
            &&& epoch.mint == old(asset_config).mint
            &&& epoch.wf()
            &&& *final(asset_config) == (AssetConfig {
                active_epoch_id: epoch.epoch_id,
                ..*old(asset_config)
            })
            &&& ev.asset_symbol@ == old(asset_config).asset_symbol@
            &&& ev.epoch_id == id
            &&& ev.start_ts == epoch.start_ts
            &&& ev.cutoff_ts == epoch.cutoff_ts
            &&& ev.end_ts == epoch.end_ts
        }),
{
    let epoch_len = config.epoch_length_secs;
    let epoch_id = ts_to_epoch_id(now, epoch_len);
    proof {
        lemma_fundamental_div_mod(now as int, epoch_len as int);
        lemma_mod_division_less_than_divisor(now as int, epoch_len as int);
        assert((now as int) / (epoch_len as int) * (epoch_len as int) == (epoch_len as int) * (
        (now as int) / (epoch_len as int))) by (nonlinear_arith);
    }
    let start_ts = epoch_id_to_start_ts(epoch_id, epoch_len);
    let end_ts = start_ts + epoch_len as i64;
    let cutoff_ts = end_ts - config.cutoff_secs as i64;
    let epoch = Epoch {
        asset_symbol: asset_config.asset_symbol.clone(),
        epoch_id,
        start_ts,
        cutoff_ts,
        end_ts,
        settle_price: 0,
        settle_expo: 0,
        status: EpochStatus::Open,
        winning_side: WinningSide::NoWinner,
        sum_up: 0,
        sum_down: 0,
        mint: asset_config.mint,
    };
    asset_config.active_epoch_id = epoch_id;
    let ev = EpochCreated {
        asset_symbol: epoch.asset_symbol.clone(),
        epoch_id,
        start_ts,
        cutoff_ts,
        end_ts,
    };
    (epoch, ev)
}

} // verus!
