//! A minimal crowdfunding ledger.
//!
//! A [`ledger::CampaignLedger`] owns a collection of campaigns keyed by a
//! monotonically increasing identifier. Users create campaigns, record
//! contributions toward a goal before a deadline, and query campaign state.
//! The caller's identity and the current time are explicit parameters of
//! every operation, so the ledger itself is a pure, fully verified core.

pub mod campaign;
pub mod errors;
pub mod identity;
pub mod laws;
pub mod ledger;

pub use campaign::Campaign;
pub use campaign::Contribution;
pub use errors::CampaignError;
pub use identity::Identity;
pub use ledger::CampaignLedger;
