//! Binding an asset symbol to its oracle account and settlement mint.

use vstd::prelude::*;
use vstd::string::StrSliceExecFns;
use crate::errors::BettingError;
use crate::state::{AccountId, AssetConfig, GlobalConfig, MAX_SYMBOL_LEN};

verus! {

/// Why a feed registration is refused, in the order the checks run.
pub open spec fn set_asset_feed_error(
    config: GlobalConfig,
    caller: AccountId,
    asset_symbol: Seq<char>,
) -> Option<BettingError> {
    if caller != config.admin {
        Some(BettingError::Unauthorized)
    } else if asset_symbol.len() > MAX_SYMBOL_LEN {
        Some(BettingError::AssetSymbolTooLong)
    } else {
        None
    }
}

/// Registers or refreshes an asset's oracle binding.  Admin only; the
/// symbol must fit the bounded length.  A fresh registration resets the
/// active-epoch pointer.
pub fn set_asset_feed(
    config: &GlobalConfig,
    caller: AccountId,
    asset_symbol: String,
    oracle_account: AccountId,
    mint: AccountId,
) -> (r: Result<AssetConfig, BettingError>)
    ensures
        (match r {
            Ok(asset_config) => {
                &&& set_asset_feed_error(*config, caller, asset_symbol@) is None
                &&& asset_config.asset_symbol@ == asset_symbol@
                &&& asset_config.oracle_account == oracle_account
                &&& asset_config.mint == mint
                &&& asset_config.active_epoch_id == 0
                &&& asset_config.wf()
            },
            Err(e) => set_asset_feed_error(*config, caller, asset_symbol@) == Some(e),
        }),
{
    if caller != config.admin {
        return Err(BettingError::Unauthorized);
    }
    if asset_symbol.as_str().unicode_len() > MAX_SYMBOL_LEN {
        return Err(BettingError::AssetSymbolTooLong);
    }
    Ok(AssetConfig { asset_symbol, oracle_account, mint, active_epoch_id: 0 })
}

} // verus!
