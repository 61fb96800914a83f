//! The admin's emergency brake: pausing blocks bet placement only.

use vstd::prelude::*;
use crate::errors::BettingError;
use crate::state::{AccountId, GlobalConfig};

verus! {

/// Sets the pause flag.  Only the admin may; anyone else gets
/// `Unauthorized` and changes nothing.
pub fn pause(config: &mut GlobalConfig, caller: AccountId) -> (r: Result<(), BettingError>)
    ensures
        (match r {
            Ok(()) => caller == old(config).admin
                && *final(config) == (GlobalConfig { paused: true, ..*old(config) }),
            Err(e) => e == BettingError::Unauthorized && caller != old(config).admin
                && *final(config) == *old(config),
        }),
{
    if caller != config.admin {
        return Err(BettingError::Unauthorized);
    }
    config.paused = true;
    Ok(())
}

/// Clears the pause flag.  Only the admin may; anyone else gets
/// `Unauthorized` and changes nothing.
pub fn unpause(config: &mut GlobalConfig, caller: AccountId) -> (r: Result<(), BettingError>)
    ensures
        (match r {
            Ok(()) => caller == old(config).admin
                && *final(config) == (GlobalConfig { paused: false, ..*old(config) }),
            Err(e) => e == BettingError::Unauthorized && caller != old(config).admin
                && *final(config) == *old(config),
        }),
{
    if caller != config.admin {
        return Err(BettingError::Unauthorized);
    }
    config.paused = false;
    Ok(())
}

} // verus!
