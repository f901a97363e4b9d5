//! Verified decision logic of the LedgerLens score contract.
//!
//! The contract keeps, for every wallet and asset pair, the latest risk score
//! submitted by the scoring service, and guards those submissions with input
//! validation, a historical-high score floor, a submission rate limit (a flat
//! cooldown or a token bucket) and a per-hour score velocity cap. Its
//! administration covers the consensus configuration, the jump threshold, a
//! time-locked staleness window and a time-locked code upgrade.
//!
//! Everything here is a pure transition from the stored state, the request and
//! the ledger time to the next state, the reply and the event to publish. The
//! host side (storage, authorization, the ledger clock, event publication)
//! stays with the caller.

pub mod error;
pub mod params;
pub mod auth;
pub mod rate_limit;
pub mod velocity;
pub mod floor;
pub mod governance;
pub mod contract;
pub mod laws;
