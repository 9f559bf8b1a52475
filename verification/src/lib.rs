//! Storage layer of the SwiftRemit remittance contract, verified with Verus.
//!
//! The contract keeps its configuration in the instance storage of the
//! executing Soroban contract and its per-entity records (remittances, agents,
//! admin roles, settlements, limits, transfer histories) in persistent storage.
//! Every function here states, over a mathematical model of those two stores,
//! exactly what it reads and what it writes.

pub mod errors;
pub mod keys;
pub mod host;
pub mod types;
pub mod storage;
pub mod laws;

pub use errors::ContractError;
pub use types::{DailyLimit, Remittance, RemittanceStatus, TransferRecord};
