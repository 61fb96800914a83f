//! A pari-mutuel, fixed-window prediction market.
//!
//! Users stake on whether an asset's price moves up or down over a short,
//! fixed-length round (an epoch).  Stakes accumulate into a shared pool per
//! side; once the round ends, an oracle reading determines the winning side,
//! a protocol fee is deducted, and winners split the remaining pool in
//! proportion to their stake.
//!
//! This crate holds the epoch lifecycle state machine and the
//! pool-settlement arithmetic, fully verified.  Keyed storage, value
//! custody and the raw oracle feed are collaborators of the host: the
//! operations here take their readings as plain values and return the
//! transfers the host must perform.

pub mod errors;
pub mod events;
pub mod state;
pub mod oracle;
pub mod instructions;
