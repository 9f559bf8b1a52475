//! Error types for the SwiftRemit contract.
//!
//! This module defines the error conditions that can occur during contract
//! execution.

use vstd::prelude::*;

verus! {

/// Errors returned by the contract's storage layer and entry points.
#[derive(Clone, Copy, Debug, PartialEq, Eq, Structural, PartialOrd, Ord)]
pub enum ContractError {
    /// The contract has not been initialized: a configuration value is missing.
    NotInitialized,
    /// No remittance is stored under the requested id.
    RemittanceNotFound,
    /// The settlement for this remittance was already executed.
    DuplicateSettlement,
    /// Contract is paused. Settlements are temporarily disabled.
    /// Cause: Attempting confirm_payout() while contract is in paused state.
    ContractPaused,
    /// Rate limit exceeded. Sender must wait before submitting another settlement.
    /// Cause: Attempting confirm_payout() before cooldown period has elapsed.
    RateLimitExceeded,
    /// Caller is not authorized to perform admin operations.
    /// Cause: Non-admin attempting to perform admin-only operations.
    Unauthorized,
    /// Admin address already exists in the system.
    /// Cause: Attempting to add an admin that is already registered.
    AdminAlreadyExists,
    /// Admin address does not exist in the system.
    /// Cause: Attempting to remove an admin that is not registered.
    AdminNotFound,
    /// Cannot remove the last admin from the system.
    /// Cause: Attempting to remove the only remaining admin.
    CannotRemoveLastAdmin,
    /// Token is not whitelisted for use in the system.
    /// Cause: Attempting to initialize contract with non-whitelisted token.
    TokenNotWhitelisted,
    /// Token is already whitelisted in the system.
    /// Cause: Attempting to add a token that is already whitelisted.
    TokenAlreadyWhitelisted,
    /// Migration hash verification failed.
    /// Cause: Snapshot hash doesn't match computed hash (data tampering or corruption).
    InvalidMigrationHash,
    /// Migration already in progress or completed.
    /// Cause: Attempting to start migration when one is already active.
    MigrationInProgress,
    /// Migration batch out of order or invalid.
    /// Cause: Importing batches in wrong order or invalid batch number.
    InvalidMigrationBatch,
    /// Daily send limit exceeded for this user.
    /// Cause: User's total transfers in the last 24 hours exceed the configured limit.
    DailySendLimitExceeded,
}

impl ContractError {
    /// The code under which the contract reports the error to its callers.
    ///
    /// Each error has a code of its own, so that callers can tell them apart.
    /// `Unauthorized` takes 24, the first code after the documented ones,
    /// since 14 belongs to `RateLimitExceeded`.
    pub open spec fn code_spec(self) -> u32 {
        match self {
            ContractError::NotInitialized => 2,
            ContractError::RemittanceNotFound => 6,
            ContractError::DuplicateSettlement => 12,
            ContractError::ContractPaused => 13,
            ContractError::RateLimitExceeded => 14,
            ContractError::Unauthorized => 24,
            ContractError::AdminAlreadyExists => 15,
            ContractError::AdminNotFound => 16,
            ContractError::CannotRemoveLastAdmin => 17,
            ContractError::TokenNotWhitelisted => 18,
            ContractError::TokenAlreadyWhitelisted => 19,
            ContractError::InvalidMigrationHash => 20,
            ContractError::MigrationInProgress => 21,
            ContractError::InvalidMigrationBatch => 22,
            ContractError::DailySendLimitExceeded => 23,
        }
    }

    /// The code under which the contract reports the error to its callers.
    pub fn code(&self) -> (c: u32)
        ensures
            c == self.code_spec(),
    {
        match self {
            ContractError::NotInitialized => 2,
            ContractError::RemittanceNotFound => 6,
            ContractError::DuplicateSettlement => 12,
            ContractError::ContractPaused => 13,
            ContractError::RateLimitExceeded => 14,
            ContractError::Unauthorized => 24,
            ContractError::AdminAlreadyExists => 15,
            ContractError::AdminNotFound => 16,
            ContractError::CannotRemoveLastAdmin => 17,
            ContractError::TokenNotWhitelisted => 18,
            ContractError::TokenAlreadyWhitelisted => 19,
            ContractError::InvalidMigrationHash => 20,
            ContractError::MigrationInProgress => 21,
            ContractError::InvalidMigrationBatch => 22,
            ContractError::DailySendLimitExceeded => 23,
        }
    }
}

} // verus!
