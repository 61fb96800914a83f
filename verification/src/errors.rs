//! The closed set of reasons an operation can refuse to run.

use vstd::prelude::*;

verus! {

/// Every error names exactly one violated precondition.  An operation that
/// fails with one of these performs no state change and no transfer.
#[derive(Clone, Copy, Debug, PartialEq, Eq, Structural)]
pub enum BettingError {
    /// Betting is closed for this epoch (cutoff time has passed).
    BettingClosed,
    /// Epoch is already locked.
    AlreadyLocked,
    /// Epoch is already settled.
    AlreadySettled,
    /// Invalid or unavailable price from the oracle.
    InvalidPrice,
    /// User is not a winner for this epoch.
    NotWinner,
    /// User has already claimed their winnings.
    AlreadyClaimed,
    /// Wrong settlement-currency mint provided.
    WrongMint,
    /// Arithmetic overflow occurred.
    Overflow,
    /// Epoch has not reached cutoff time yet.
    NotYetCutoff,
    /// Epoch has not reached end time yet.
    NotYetEnded,
    /// Epoch is not in the correct status for this operation.
    InvalidEpochStatus,
    /// Protocol is currently paused.
    Paused,
    /// Unauthorized access.
    Unauthorized,
    /// Invalid bet amount (must be greater than zero).
    InvalidBetAmount,
    /// Asset symbol too long.
    AssetSymbolTooLong,
    /// Epoch is in invalid state and cannot be claimed.
    EpochInvalid,
    /// Zero total pool for the winning side.
    ZeroWinningPool,
    /// Oracle account does not match the one bound to the asset.
    OracleAccountMismatch,
}

} // verus!
