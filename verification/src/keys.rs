//! Storage keys of the SwiftRemit contract and the model of the two stores.
//!
//! Storage layout:
//! - Instance storage: contract-level configuration and state (Admin, UsdcToken,
//!   PlatformFeeBps, RemittanceCounter, AccumulatedFees, Paused, RateLimitCooldown,
//!   AdminCount).
//! - Persistent storage: per-entity data that needs long-term retention
//!   (Remittance records, AgentRegistered status, AdminRole, SettlementHash,
//!   LastSettlementTime, DailyLimit, UserTransfers, TokenWhitelisted).
//!
//! Each key is written to the host as a vector whose first element is the
//! symbol of its variant, followed by the variant's fields.

use vstd::prelude::*;
use crate::host::holds_transfer_entries;

verus! {

/// The variant names of [`DataKey`]; each becomes the leading symbol of a key.
#[derive(Clone, Copy, Debug, PartialEq, Eq, Structural)]
pub enum KeyTag {
    Admin,
    AdminRole,
    AdminCount,
    UsdcToken,
    PlatformFeeBps,
    RemittanceCounter,
    Remittance,
    AgentRegistered,
    AccumulatedFees,
    Paused,
    SettlementHash,
    RateLimitCooldown,
    LastSettlementTime,
    DailyLimit,
    UserTransfers,
    TokenWhitelisted,
}

/// A character that a Soroban symbol may hold: `a-zA-Z0-9_`.
pub open spec fn is_symbol_char(c: char) -> bool {
    ||| ('a' <= c && c <= 'z')
    ||| ('A' <= c && c <= 'Z')
    ||| ('0' <= c && c <= '9')
    ||| c == '_'
}

/// Text that `Symbol::new` accepts: at most 32 symbol characters.
pub open spec fn is_symbol_text(s: Seq<char>) -> bool {
    &&& s.len() <= 32
    &&& forall|i: int| 0 <= i < s.len() ==> is_symbol_char(#[trigger] s[i])
}

impl KeyTag {
    /// The symbol text of the tag: the name of the variant.
    pub open spec fn text(self) -> Seq<char> {
        match self {
            KeyTag::Admin => "Admin"@,
            KeyTag::AdminRole => "AdminRole"@,
            KeyTag::AdminCount => "AdminCount"@,
            KeyTag::UsdcToken => "UsdcToken"@,
            KeyTag::PlatformFeeBps => "PlatformFeeBps"@,
            KeyTag::RemittanceCounter => "RemittanceCounter"@,
            KeyTag::Remittance => "Remittance"@,
            KeyTag::AgentRegistered => "AgentRegistered"@,
            KeyTag::AccumulatedFees => "AccumulatedFees"@,
            KeyTag::Paused => "Paused"@,
            KeyTag::SettlementHash => "SettlementHash"@,
            KeyTag::RateLimitCooldown => "RateLimitCooldown"@,
            KeyTag::LastSettlementTime => "LastSettlementTime"@,
            KeyTag::DailyLimit => "DailyLimit"@,
            KeyTag::UserTransfers => "UserTransfers"@,
            KeyTag::TokenWhitelisted => "TokenWhitelisted"@,
        }
    }

    /// The symbol text of the tag, as a string that `Symbol::new` accepts.
    pub fn symbol_text(self) -> (s: &'static str)
        ensures
            s@ == self.text(),
            is_symbol_text(s@),
    {
        match self {
            KeyTag::Admin => {
                proof { reveal_strlit("Admin"); }
                "Admin"
            },
            KeyTag::AdminRole => {
                proof { reveal_strlit("AdminRole"); }
                "AdminRole"
            },
            KeyTag::AdminCount => {
                proof { reveal_strlit("AdminCount"); }
                "AdminCount"
            },
            KeyTag::UsdcToken => {
                proof { reveal_strlit("UsdcToken"); }
                "UsdcToken"
            },
            KeyTag::PlatformFeeBps => {
                proof { reveal_strlit("PlatformFeeBps"); }
                "PlatformFeeBps"
            },
            KeyTag::RemittanceCounter => {
                proof { reveal_strlit("RemittanceCounter"); }
                "RemittanceCounter"
            },
            KeyTag::Remittance => {
                proof { reveal_strlit("Remittance"); }
                "Remittance"
            },
            KeyTag::AgentRegistered => {
                proof { reveal_strlit("AgentRegistered"); }
                "AgentRegistered"
            },
            KeyTag::AccumulatedFees => {
                proof { reveal_strlit("AccumulatedFees"); }
                "AccumulatedFees"
            },
            KeyTag::Paused => {
                proof { reveal_strlit("Paused"); }
                "Paused"
            },
            KeyTag::SettlementHash => {
                proof { reveal_strlit("SettlementHash"); }
                "SettlementHash"
            },
            KeyTag::RateLimitCooldown => {
                proof { reveal_strlit("RateLimitCooldown"); }
                "RateLimitCooldown"
            },
            KeyTag::LastSettlementTime => {
                proof { reveal_strlit("LastSettlementTime"); }
                "LastSettlementTime"
            },
            KeyTag::DailyLimit => {
                proof { reveal_strlit("DailyLimit"); }
                "DailyLimit"
            },
            KeyTag::UserTransfers => {
                proof { reveal_strlit("UserTransfers"); }
                "UserTransfers"
            },
            KeyTag::TokenWhitelisted => {
                proof { reveal_strlit("TokenWhitelisted"); }
                "TokenWhitelisted"
            },
        }
    }
}

} // verus!

verus! {

/// A storage key as the host holds it: the symbol text of its variant and the
/// variant's fields.
pub enum StorageKey {
    /// A key without fields.
    Named(Seq<char>),
    /// A key indexed by an address.
    ByAddress(Seq<char>, soroban_sdk::Address),
    /// A key indexed by a numeric id.
    ById(Seq<char>, u64),
    /// A key indexed by a pair of strings.
    ByPair(Seq<char>, soroban_sdk::String, soroban_sdk::String),
}

/// The on-host form of a remittance: id, sender, agent, amount, fee and the
/// status code.
pub type RemittanceRecord = (u64, soroban_sdk::Address, soroban_sdk::Address, i128, i128, u32);

/// The on-host form of a daily limit: currency, country and limit.
pub type DailyLimitRecord = (soroban_sdk::String, soroban_sdk::String, i128);

/// The on-host form of a transfer record: amount and timestamp.
pub type TransferEntry = (i128, u64);

/// A value held in contract storage, by the type it was written with.
///
/// A slot can also hold a value of a type outside these kinds, written by
/// other code. The model gives such a slot some value of a kind that does not
/// fit its key, so [`slot_fits`] fails for it, and no function of the library
/// reads it: every getter requires its slot to fit.
pub enum StoredValue {
    Address(soroban_sdk::Address),
    Bool(bool),
    U32(u32),
    U64(u64),
    I128(i128),
    Remittance(RemittanceRecord),
    DailyLimit(DailyLimitRecord),
    Transfers(soroban_sdk::Vec<TransferEntry>),
}

/// Storage keys for the SwiftRemit contract.
pub enum DataKey {
    /// Contract administrator address with privileged access (deprecated - use AdminRole)
    Admin,
    /// Admin role status indexed by address (persistent storage)
    AdminRole(soroban_sdk::Address),
    /// Counter for tracking number of admins
    AdminCount,
    /// USDC token contract address used for all remittance transactions
    UsdcToken,
    /// Platform fee in basis points (1 bps = 0.01%)
    PlatformFeeBps,
    /// Global counter for generating unique remittance IDs
    RemittanceCounter,
    /// Individual remittance record indexed by ID (persistent storage)
    Remittance(u64),
    /// Agent registration status indexed by agent address (persistent storage)
    AgentRegistered(soroban_sdk::Address),
    /// Total accumulated platform fees awaiting withdrawal
    AccumulatedFees,
    /// Contract pause status for emergency halts
    Paused,
    /// Settlement hash for duplicate detection (persistent storage)
    SettlementHash(u64),
    /// Cooldown period in seconds between settlements per sender
    RateLimitCooldown,
    /// Last settlement timestamp for a sender address (persistent storage)
    LastSettlementTime(soroban_sdk::Address),
    /// Daily limit configuration indexed by currency and country (persistent storage)
    DailyLimit(soroban_sdk::String, soroban_sdk::String),
    /// User transfer records indexed by user address (persistent storage)
    UserTransfers(soroban_sdk::Address),
    /// Token whitelist status indexed by token address (persistent storage)
    TokenWhitelisted(soroban_sdk::Address),
}

impl DataKey {
    /// The variant of the key.
    pub open spec fn tag(self) -> KeyTag {
        match self {
            DataKey::Admin => KeyTag::Admin,
            DataKey::AdminRole(_) => KeyTag::AdminRole,
            DataKey::AdminCount => KeyTag::AdminCount,
            DataKey::UsdcToken => KeyTag::UsdcToken,
            DataKey::PlatformFeeBps => KeyTag::PlatformFeeBps,
            DataKey::RemittanceCounter => KeyTag::RemittanceCounter,
            DataKey::Remittance(_) => KeyTag::Remittance,
            DataKey::AgentRegistered(_) => KeyTag::AgentRegistered,
            DataKey::AccumulatedFees => KeyTag::AccumulatedFees,
            DataKey::Paused => KeyTag::Paused,
            DataKey::SettlementHash(_) => KeyTag::SettlementHash,
            DataKey::RateLimitCooldown => KeyTag::RateLimitCooldown,
            DataKey::LastSettlementTime(_) => KeyTag::LastSettlementTime,
            DataKey::DailyLimit(_, _) => KeyTag::DailyLimit,
            DataKey::UserTransfers(_) => KeyTag::UserTransfers,
            DataKey::TokenWhitelisted(_) => KeyTag::TokenWhitelisted,
        }
    }

    /// The key as the host holds it.
    pub open spec fn storage_key(self) -> StorageKey {
        let name = self.tag().text();
        match self {
            DataKey::AdminRole(a) => StorageKey::ByAddress(name, a),
            DataKey::Remittance(id) => StorageKey::ById(name, id),
            DataKey::AgentRegistered(a) => StorageKey::ByAddress(name, a),
            DataKey::SettlementHash(id) => StorageKey::ById(name, id),
            DataKey::LastSettlementTime(a) => StorageKey::ByAddress(name, a),
            DataKey::DailyLimit(c, k) => StorageKey::ByPair(name, c, k),
            DataKey::UserTransfers(a) => StorageKey::ByAddress(name, a),
            DataKey::TokenWhitelisted(a) => StorageKey::ByAddress(name, a),
            _ => StorageKey::Named(name),
        }
    }

    /// Whether `v` has the type that this key is written with.
    pub open spec fn fits(self, v: StoredValue) -> bool {
        match self {
            DataKey::Admin | DataKey::UsdcToken => v is Address,
            DataKey::AdminRole(_) | DataKey::AgentRegistered(_) | DataKey::Paused
            | DataKey::SettlementHash(_) | DataKey::TokenWhitelisted(_) => v is Bool,
            DataKey::AdminCount | DataKey::PlatformFeeBps => v is U32,
            DataKey::RemittanceCounter | DataKey::RateLimitCooldown
            | DataKey::LastSettlementTime(_) => v is U64,
            DataKey::AccumulatedFees => v is I128,
            DataKey::Remittance(_) => v matches StoredValue::Remittance(r) && r.5 < 3,
            DataKey::DailyLimit(_, _) => v is DailyLimit,
            DataKey::UserTransfers(_) => v matches StoredValue::Transfers(t) && holds_transfer_entries(t),
        }
    }
}

/// The slot of `key` in `m` is empty or holds a value of the key's type.
pub open spec fn slot_fits(m: Map<StorageKey, StoredValue>, key: DataKey) -> bool {
    m.contains_key(key.storage_key()) ==> key.fits(m[key.storage_key()])
}

/// Every slot of `m` that belongs to a [`DataKey`] holds a value of its type.
pub open spec fn store_fits(m: Map<StorageKey, StoredValue>) -> bool {
    forall|key: DataKey| #[trigger] slot_fits(m, key)
}

} // verus!

verus! {

/// The address held under `k`, if `k` holds one.
pub open spec fn stored_address(m: Map<StorageKey, StoredValue>, k: StorageKey) -> Option<soroban_sdk::Address> {
    match m.get(k) {
        Some(StoredValue::Address(a)) => Some(a),
        _ => None,
    }
}

/// The flag held under `k`, if `k` holds one.
pub open spec fn stored_bool(m: Map<StorageKey, StoredValue>, k: StorageKey) -> Option<bool> {
    match m.get(k) {
        Some(StoredValue::Bool(b)) => Some(b),
        _ => None,
    }
}

/// The `u32` held under `k`, if `k` holds one.
pub open spec fn stored_u32(m: Map<StorageKey, StoredValue>, k: StorageKey) -> Option<u32> {
    match m.get(k) {
        Some(StoredValue::U32(x)) => Some(x),
        _ => None,
    }
}

/// The `u64` held under `k`, if `k` holds one.
pub open spec fn stored_u64(m: Map<StorageKey, StoredValue>, k: StorageKey) -> Option<u64> {
    match m.get(k) {
        Some(StoredValue::U64(x)) => Some(x),
        _ => None,
    }
}

/// The `i128` held under `k`, if `k` holds one.
pub open spec fn stored_i128(m: Map<StorageKey, StoredValue>, k: StorageKey) -> Option<i128> {
    match m.get(k) {
        Some(StoredValue::I128(x)) => Some(x),
        _ => None,
    }
}

/// The remittance record held under `k`, if `k` holds one.
pub open spec fn stored_remittance(m: Map<StorageKey, StoredValue>, k: StorageKey) -> Option<RemittanceRecord> {
    match m.get(k) {
        Some(StoredValue::Remittance(r)) => Some(r),
        _ => None,
    }
}

/// The daily-limit record held under `k`, if `k` holds one.
pub open spec fn stored_daily_limit(m: Map<StorageKey, StoredValue>, k: StorageKey) -> Option<DailyLimitRecord> {
    match m.get(k) {
        Some(StoredValue::DailyLimit(r)) => Some(r),
        _ => None,
    }
}

/// The transfer vector held under `k`, if `k` holds one.
pub open spec fn stored_transfers(m: Map<StorageKey, StoredValue>, k: StorageKey) -> Option<soroban_sdk::Vec<TransferEntry>> {
    match m.get(k) {
        Some(StoredValue::Transfers(v)) => Some(v),
        _ => None,
    }
}

} // verus!
