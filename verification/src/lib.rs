//! A crowdfunding escrow campaign: pledges in a single fungible asset are
//! collected toward a goal, and on expiry funds are routed either to the
//! campaign creator (goal met) or back to the contributors (goal missed),
//! with an optional platform fee skimmed from a successful raise.
//!
//! The crate is the deterministic core of such a contract: the lifecycle
//! state machine, the contribution ledger and its accounting invariants,
//! and the fee and disbursement arithmetic. The host environment that a
//! deployment runs under (persistent storage, the ledger clock, signature
//! verification, and the asset-transfer primitive) is kept outside: every
//! operation takes the current time and the verified caller as plain
//! arguments and returns the transfer instructions it decided on.

pub mod campaign;
pub mod disburse;
pub mod errors;
pub mod laws;
pub mod ledger;

pub use campaign::{Campaign, PlatformConfig, RoadmapItem, Status};
pub use disburse::Payout;
pub use errors::Error;
pub use ledger::LedgerEntry;
