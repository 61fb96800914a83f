//! Locking an epoch once its betting cutoff has passed.  Locking is
//! optional — settlement may be reached straight from `Open` — and
//! idempotent: a second call changes nothing and emits nothing.

use vstd::prelude::*;
use crate::errors::BettingError;
use crate::events::EpochLocked;
use crate::state::{Epoch, EpochStatus};

verus! {

/// What locking does to an epoch record: `Open` becomes `Locked`; any
/// other status — `Locked` already, or a terminal one — stays put.
pub open spec fn lock_step(epoch: Epoch) -> Epoch {
    if epoch.status is Open {
        Epoch { status: EpochStatus::Locked, ..epoch }
    } else {
        epoch
    }
}

/// Locks the epoch.  Callable by anyone; fails with `NotYetCutoff` before
/// the cutoff.  A notification, carrying a snapshot of the final pool
/// sums, is emitted only on the one call that actually transitions.
pub fn lock_epoch(epoch: &mut Epoch, now: i64) -> (r: Result<Option<EpochLocked>, BettingError>)
    ensures
        (match r {
            Ok(ev) => {
                &&& now >= old(epoch).cutoff_ts
                &&& *final(epoch) == lock_step(*old(epoch))
                &&& (match ev {
                    Some(locked) => {
                        &&& old(epoch).status is Open
                        &&& locked.asset_symbol@ == old(epoch).asset_symbol@
                        &&& locked.epoch_id == old(epoch).epoch_id
                        &&& locked.timestamp == now
                        &&& locked.sum_up == old(epoch).sum_up
                        &&& locked.sum_down == old(epoch).sum_down
                    },
                    None => !(old(epoch).status is Open),
                })
            },
            Err(e) => {
                &&& e == BettingError::NotYetCutoff
                &&& now < old(epoch).cutoff_ts
                &&& *final(epoch) == *old(epoch)
            },
        }),
{
    if now < epoch.cutoff_ts {
        return Err(BettingError::NotYetCutoff);
    }
    if epoch.status != EpochStatus::Open {
        return Ok(None);
    }
    epoch.status = EpochStatus::Locked;
    let ev = EpochLocked {
        asset_symbol: epoch.asset_symbol.clone(),
        epoch_id: epoch.epoch_id,
        timestamp: now,
        sum_up: epoch.sum_up,
        sum_down: epoch.sum_down,
    };
    Ok(Some(ev))
}

/// Locking twice is the same as locking once: the second application of
/// `lock_step` finds the epoch no longer `Open` and leaves it untouched,
/// so a repeated `lock_epoch` call returns `Ok(None)` and mutates nothing.
pub proof fn lemma_lock_idempotent(epoch: Epoch)
    ensures
        lock_step(lock_step(epoch)) == lock_step(epoch),
{
}

} // verus!
