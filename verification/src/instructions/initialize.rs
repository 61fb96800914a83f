//! Creating the global configuration, once, at deployment.

use vstd::prelude::*;
use crate::state::{AccountId, GlobalConfig};

verus! {

/// Builds the global configuration.  The deployer must pick a fee of at
/// most the whole pool and a cutoff offset strictly inside the epoch
/// window; both are invariants everything downstream relies on.
pub fn initialize(
    admin: AccountId,
    treasury: AccountId,
    fee_bps: u16,
    settle_tip_lamports: u64,
    cutoff_secs: u32,
    epoch_length_secs: u32,
) -> (config: GlobalConfig)
    requires
        fee_bps <= 10000,
        0 < cutoff_secs < epoch_length_secs,
    ensures
        config.admin == admin,
        config.treasury == treasury,
        config.fee_bps == fee_bps,
        config.settle_tip_lamports == settle_tip_lamports,
        config.cutoff_secs == cutoff_secs,
        config.epoch_length_secs == epoch_length_secs,
        !config.paused,
        config.wf(),
{
    GlobalConfig {
        admin,
        treasury,
        fee_bps,
        settle_tip_lamports,
        cutoff_secs,
        epoch_length_secs,
        paused: false,
    }
}

} // verus!
