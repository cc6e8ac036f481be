//! Arbitration of monetary disputes between two counterparties on an
//! authenticated ledger: filing with an escrowed fee, adjudication by an
//! authorized arbitrator, and an admin-adjudicated appeal round.
//!
//! The library holds the contract's whole state and decides every operation;
//! the fee movements it decides are handed back as [`FeeTransfer`] values for
//! the host to perform on the token contract.
pub mod contract;
pub mod escrow;
pub mod laws;
pub mod principal;
pub mod records;

pub use contract::{Config, ContractState, DisputeResolutionContract};
pub use escrow::FeeTransfer;
pub use principal::{CallAuth, Principal};
pub use records::{AppealStatus, Dispute, DisputeAppeal, DisputeError, DisputeOutcome, DisputeStatus};
