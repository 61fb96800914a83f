//! The externally triggered operations.
//!
//! Each one runs as an atomic, all-or-nothing transaction against the
//! records it takes: on an error nothing is changed and no transfer is
//! owed; on success the returned notification and transfer amounts tell
//! the host what to emit and move.

pub mod claim;
pub mod close_epoch;
pub mod create_epoch;
pub mod initialize;
pub mod lock_epoch;
pub mod place_bet;
pub mod set_asset_feed;
pub mod pause;

pub use claim::claim;
pub use close_epoch::close_epoch;
pub use create_epoch::create_epoch;
pub use initialize::initialize;
pub use lock_epoch::lock_epoch;
pub use place_bet::place_bet;
pub use set_asset_feed::set_asset_feed;
pub use pause::pause;
pub use pause::unpause;
