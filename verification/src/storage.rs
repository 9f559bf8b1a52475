//! Storage management for the SwiftRemit contract.
//!
//! This module provides functions for reading and writing contract state,
//! including configuration, remittance records, agent registration, and fee
//! tracking. Uses both instance storage (contract-level config) and persistent
//! storage (per-entity data).
//!
//! Each function states its effect over the two maps `instance_entries(env)`
//! and `persistent_entries(env)`: a setter writes exactly one slot of one of
//! them, a getter returns what a slot holds. Functions that write take the
//! environment by `&mut`, so that each write is visible to the proofs as a
//! change of the environment. All calls must be made while a contract is
//! executing.

use vstd::prelude::*;
use soroban_sdk::{Address, Env};
use crate::errors::ContractError;
use crate::host::{
    auth_grants, contract_running, host_context_kept, persistent_readable, persistent_writable,
    required_auths, holds_transfer_entries,
    instance_entries, instance_get_address, instance_get_bool, instance_get_i128, instance_get_u32,
    instance_get_u64, instance_has, instance_set_address, instance_set_bool, instance_set_i128,
    instance_set_u32, instance_set_u64, ledger_timestamp, persistent_entries,
    persistent_get_bool_by_addr, persistent_get_daily_limit_by_pair,
    persistent_get_remittance_by_id, persistent_get_transfers_by_addr, persistent_get_u64_by_addr,
    persistent_has_by_id, persistent_set_bool_by_addr, persistent_set_bool_by_id,
    persistent_set_daily_limit_by_pair, persistent_set_remittance_by_id,
    persistent_set_transfers_by_addr, persistent_set_u64_by_addr, require_auth, transfer_entries,
    transfer_vec_get, transfer_vec_len, transfer_vec_new, transfer_vec_push_back,
};
use crate::keys::{
    slot_fits, stored_address, stored_bool, stored_daily_limit, stored_i128, stored_remittance,
    stored_transfers, stored_u32, stored_u64, DataKey, KeyTag, StoredValue, TransferEntry,
};
use crate::types::{DailyLimit, Remittance, TransferRecord};

verus! {

/// A configuration value, or `NotInitialized` where it was never written.
pub open spec fn required<T>(o: Option<T>) -> Result<T, ContractError> {
    match o {
        Some(x) => Ok(x),
        None => Err(ContractError::NotInitialized),
    }
}

/// A stored flag, read as `false` where it was never written.
pub open spec fn flag_or_false(o: Option<bool>) -> bool {
    match o {
        Some(b) => b,
        None => false,
    }
}

/// The remittance stored under `id` in the persistent map `m`.
pub open spec fn remittance_in(m: Map<crate::keys::StorageKey, StoredValue>, id: u64) -> Result<Remittance, ContractError> {
    match stored_remittance(m, DataKey::Remittance(id).storage_key()) {
        Some(rec) => Ok(Remittance::from_record_spec(rec)),
        None => Err(ContractError::RemittanceNotFound),
    }
}

/// The transfer history of `user` in the persistent map `m`: empty where none
/// was written.
pub open spec fn transfers_in(m: Map<crate::keys::StorageKey, StoredValue>, user: Address) -> Seq<TransferRecord> {
    match stored_transfers(m, DataKey::UserTransfers(user).storage_key()) {
        Some(v) => transfer_entries(v).map_values(|e: TransferEntry| TransferRecord::from_entry_spec(e)),
        None => Seq::empty(),
    }
}

/// Checks if the contract has an admin configured.
///
/// Returns `true` when an admin is configured, `false` when none is (the
/// contract is not initialized).
pub fn has_admin(env: &Env) -> (r: bool)
    requires
        contract_running(*env),
    ensures
        r == instance_entries(*env).contains_key(DataKey::Admin.storage_key()),
{
    instance_has(env, KeyTag::Admin.symbol_text())
}

/// Sets the contract administrator address.
pub fn set_admin(env: &mut Env, admin: &Address)
    requires
        contract_running(*old(env)),
    ensures
        instance_entries(*final(env)) == instance_entries(*old(env)).insert(
            DataKey::Admin.storage_key(),
            StoredValue::Address(*admin),
        ),
        persistent_entries(*final(env)) == persistent_entries(*old(env)),
        host_context_kept(*old(env), *final(env)),
{
    instance_set_address(env, KeyTag::Admin.symbol_text(), admin);
}

/// Retrieves the contract administrator address.
///
/// Returns `Err(ContractError::NotInitialized)` when the contract is not
/// initialized.
pub fn get_admin(env: &Env) -> (r: Result<Address, ContractError>)
    requires
        contract_running(*env),
        slot_fits(instance_entries(*env), DataKey::Admin),
    ensures
        r == required(stored_address(instance_entries(*env), DataKey::Admin.storage_key())),
{
    match instance_get_address(env, KeyTag::Admin.symbol_text()) {
        Some(a) => Ok(a),
        None => Err(ContractError::NotInitialized),
    }
}

/// Sets the USDC token contract address.
pub fn set_usdc_token(env: &mut Env, token: &Address)
    requires
        contract_running(*old(env)),
    ensures
        instance_entries(*final(env)) == instance_entries(*old(env)).insert(
            DataKey::UsdcToken.storage_key(),
            StoredValue::Address(*token),
        ),
        persistent_entries(*final(env)) == persistent_entries(*old(env)),
        host_context_kept(*old(env), *final(env)),
{
    instance_set_address(env, KeyTag::UsdcToken.symbol_text(), token);
}

/// Retrieves the USDC token contract address.
///
/// Returns `Err(ContractError::NotInitialized)` when the value was never set.
pub fn get_usdc_token(env: &Env) -> (r: Result<Address, ContractError>)
    requires
        contract_running(*env),
        slot_fits(instance_entries(*env), DataKey::UsdcToken),
    ensures
        r == required(stored_address(instance_entries(*env), DataKey::UsdcToken.storage_key())),
{
    match instance_get_address(env, KeyTag::UsdcToken.symbol_text()) {
        Some(x) => Ok(x),
        None => Err(ContractError::NotInitialized),
    }
}

/// Sets the platform fee rate, in basis points (1 bps = 0.01%).
pub fn set_platform_fee_bps(env: &mut Env, fee_bps: u32)
    requires
        contract_running(*old(env)),
    ensures
        instance_entries(*final(env)) == instance_entries(*old(env)).insert(
            DataKey::PlatformFeeBps.storage_key(),
            StoredValue::U32(fee_bps),
        ),
        persistent_entries(*final(env)) == persistent_entries(*old(env)),
        host_context_kept(*old(env), *final(env)),
{
    instance_set_u32(env, KeyTag::PlatformFeeBps.symbol_text(), fee_bps);
}

/// Retrieves the platform fee rate, in basis points.
///
/// Returns `Err(ContractError::NotInitialized)` when the value was never set.
pub fn get_platform_fee_bps(env: &Env) -> (r: Result<u32, ContractError>)
    requires
        contract_running(*env),
        slot_fits(instance_entries(*env), DataKey::PlatformFeeBps),
    ensures
        r == required(stored_u32(instance_entries(*env), DataKey::PlatformFeeBps.storage_key())),
{
    match instance_get_u32(env, KeyTag::PlatformFeeBps.symbol_text()) {
        Some(x) => Ok(x),
        None => Err(ContractError::NotInitialized),
    }
}

/// Sets the remittance counter used for ID generation.
pub fn set_remittance_counter(env: &mut Env, counter: u64)
    requires
        contract_running(*old(env)),
    ensures
        instance_entries(*final(env)) == instance_entries(*old(env)).insert(
            DataKey::RemittanceCounter.storage_key(),
            StoredValue::U64(counter),
        ),
        persistent_entries(*final(env)) == persistent_entries(*old(env)),
        host_context_kept(*old(env), *final(env)),
{
    instance_set_u64(env, KeyTag::RemittanceCounter.symbol_text(), counter);
}

/// Retrieves the current remittance counter.
///
/// Returns `Err(ContractError::NotInitialized)` when the value was never set.
pub fn get_remittance_counter(env: &Env) -> (r: Result<u64, ContractError>)
    requires
        contract_running(*env),
        slot_fits(instance_entries(*env), DataKey::RemittanceCounter),
    ensures
        r == required(stored_u64(instance_entries(*env), DataKey::RemittanceCounter.storage_key())),
{
    match instance_get_u64(env, KeyTag::RemittanceCounter.symbol_text()) {
        Some(x) => Ok(x),
        None => Err(ContractError::NotInitialized),
    }
}

/// Sets the accumulated platform fees.
pub fn set_accumulated_fees(env: &mut Env, fees: i128)
    requires
        contract_running(*old(env)),
    ensures
        instance_entries(*final(env)) == instance_entries(*old(env)).insert(
            DataKey::AccumulatedFees.storage_key(),
            StoredValue::I128(fees),
        ),
        persistent_entries(*final(env)) == persistent_entries(*old(env)),
        host_context_kept(*old(env), *final(env)),
{
    instance_set_i128(env, KeyTag::AccumulatedFees.symbol_text(), fees);
}

/// Retrieves the accumulated platform fees.
///
/// Returns `Err(ContractError::NotInitialized)` when the value was never set.
pub fn get_accumulated_fees(env: &Env) -> (r: Result<i128, ContractError>)
    requires
        contract_running(*env),
        slot_fits(instance_entries(*env), DataKey::AccumulatedFees),
    ensures
        r == required(stored_i128(instance_entries(*env), DataKey::AccumulatedFees.storage_key())),
{
    match instance_get_i128(env, KeyTag::AccumulatedFees.symbol_text()) {
        Some(x) => Ok(x),
        None => Err(ContractError::NotInitialized),
    }
}

/// Sets the cooldown, in seconds, between two settlements of one sender.
pub fn set_rate_limit_cooldown(env: &mut Env, cooldown_seconds: u64)
    requires
        contract_running(*old(env)),
    ensures
        instance_entries(*final(env)) == instance_entries(*old(env)).insert(
            DataKey::RateLimitCooldown.storage_key(),
            StoredValue::U64(cooldown_seconds),
        ),
        persistent_entries(*final(env)) == persistent_entries(*old(env)),
        host_context_kept(*old(env), *final(env)),
{
    instance_set_u64(env, KeyTag::RateLimitCooldown.symbol_text(), cooldown_seconds);
}

/// Retrieves the settlement cooldown in seconds.
///
/// Returns `Err(ContractError::NotInitialized)` when the value was never set.
pub fn get_rate_limit_cooldown(env: &Env) -> (r: Result<u64, ContractError>)
    requires
        contract_running(*env),
        slot_fits(instance_entries(*env), DataKey::RateLimitCooldown),
    ensures
        r == required(stored_u64(instance_entries(*env), DataKey::RateLimitCooldown.storage_key())),
{
    match instance_get_u64(env, KeyTag::RateLimitCooldown.symbol_text()) {
        Some(x) => Ok(x),
        None => Err(ContractError::NotInitialized),
    }
}

/// Stores a remittance record under its id.
pub fn set_remittance(env: &mut Env, id: u64, remittance: &Remittance)
    requires
        contract_running(*old(env)),
        persistent_writable(*old(env)).contains(DataKey::Remittance(id).storage_key()),
    ensures
        persistent_entries(*final(env)) == persistent_entries(*old(env)).insert(
            DataKey::Remittance(id).storage_key(),
            StoredValue::Remittance(remittance.record_spec()),
        ),
        instance_entries(*final(env)) == instance_entries(*old(env)),
        host_context_kept(*old(env), *final(env)),
{
    let record = remittance.to_record();
    persistent_set_remittance_by_id(env, KeyTag::Remittance.symbol_text(), id, record);
}

/// Retrieves a remittance record by ID.
///
/// Returns `Err(ContractError::RemittanceNotFound)` when no remittance is
/// stored under `id`.
pub fn get_remittance(env: &Env, id: u64) -> (r: Result<Remittance, ContractError>)
    requires
        contract_running(*env),
        persistent_readable(*env).contains(DataKey::Remittance(id).storage_key()),
        slot_fits(persistent_entries(*env), DataKey::Remittance(id)),
    ensures
        r == remittance_in(persistent_entries(*env), id),
{
    match persistent_get_remittance_by_id(env, KeyTag::Remittance.symbol_text(), id) {
        Some(record) => match Remittance::from_record(record) {
            Some(remittance) => Ok(remittance),
            None => Err(ContractError::RemittanceNotFound),
        },
        None => Err(ContractError::RemittanceNotFound),
    }
}

/// Sets an agent's registration status (true = registered, false = removed).
pub fn set_agent_registered(env: &mut Env, agent: &Address, registered: bool)
    requires
        contract_running(*old(env)),
        persistent_writable(*old(env)).contains(DataKey::AgentRegistered(*agent).storage_key()),
    ensures
        persistent_entries(*final(env)) == persistent_entries(*old(env)).insert(
            DataKey::AgentRegistered(*agent).storage_key(),
            StoredValue::Bool(registered),
        ),
        instance_entries(*final(env)) == instance_entries(*old(env)),
        host_context_kept(*old(env), *final(env)),
{
    persistent_set_bool_by_addr(env, KeyTag::AgentRegistered.symbol_text(), agent, registered);
}

/// Checks if an address is registered as an agent; an address never
/// registered is not.
pub fn is_agent_registered(env: &Env, agent: &Address) -> (r: bool)
    requires
        contract_running(*env),
        persistent_readable(*env).contains(DataKey::AgentRegistered(*agent).storage_key()),
        slot_fits(persistent_entries(*env), DataKey::AgentRegistered(*agent)),
    ensures
        r == flag_or_false(stored_bool(persistent_entries(*env), DataKey::AgentRegistered(*agent).storage_key())),
{
    match persistent_get_bool_by_addr(env, KeyTag::AgentRegistered.symbol_text(), agent) {
        Some(b) => b,
        None => false,
    }
}

/// Checks if a settlement hash exists for duplicate detection: `true` when the
/// settlement of `remittance_id` has been executed.
pub fn has_settlement_hash(env: &Env, remittance_id: u64) -> (r: bool)
    requires
        contract_running(*env),
        persistent_readable(*env).contains(DataKey::SettlementHash(remittance_id).storage_key()),
    ensures
        r == persistent_entries(*env).contains_key(DataKey::SettlementHash(remittance_id).storage_key()),
{
    persistent_has_by_id(env, KeyTag::SettlementHash.symbol_text(), remittance_id)
}

/// Marks a settlement as executed for duplicate prevention.
pub fn set_settlement_hash(env: &mut Env, remittance_id: u64)
    requires
        contract_running(*old(env)),
        persistent_writable(*old(env)).contains(DataKey::SettlementHash(remittance_id).storage_key()),
    ensures
        persistent_entries(*final(env)) == persistent_entries(*old(env)).insert(
            DataKey::SettlementHash(remittance_id).storage_key(),
            StoredValue::Bool(true),
        ),
        instance_entries(*final(env)) == instance_entries(*old(env)),
        host_context_kept(*old(env), *final(env)),
{
    persistent_set_bool_by_id(env, KeyTag::SettlementHash.symbol_text(), remittance_id, true);
}

/// Whether the contract is paused; a contract never paused is not.
pub fn is_paused(env: &Env) -> (r: bool)
    requires
        contract_running(*env),
        slot_fits(instance_entries(*env), DataKey::Paused),
    ensures
        r == flag_or_false(stored_bool(instance_entries(*env), DataKey::Paused.storage_key())),
{
    match instance_get_bool(env, KeyTag::Paused.symbol_text()) {
        Some(b) => b,
        None => false,
    }
}

/// Pauses or resumes the contract.
pub fn set_paused(env: &mut Env, paused: bool)
    requires
        contract_running(*old(env)),
    ensures
        instance_entries(*final(env)) == instance_entries(*old(env)).insert(
            DataKey::Paused.storage_key(),
            StoredValue::Bool(paused),
        ),
        persistent_entries(*final(env)) == persistent_entries(*old(env)),
        host_context_kept(*old(env), *final(env)),
{
    instance_set_bool(env, KeyTag::Paused.symbol_text(), paused);
}

/// Records the time of the last settlement of `sender`.
pub fn set_last_settlement_time(env: &mut Env, sender: &Address, timestamp: u64)
    requires
        contract_running(*old(env)),
        persistent_writable(*old(env)).contains(DataKey::LastSettlementTime(*sender).storage_key()),
    ensures
        persistent_entries(*final(env)) == persistent_entries(*old(env)).insert(
            DataKey::LastSettlementTime(*sender).storage_key(),
            StoredValue::U64(timestamp),
        ),
        instance_entries(*final(env)) == instance_entries(*old(env)),
        host_context_kept(*old(env), *final(env)),
{
    persistent_set_u64_by_addr(env, KeyTag::LastSettlementTime.symbol_text(), sender, timestamp);
}

/// The time of the last settlement of `sender`, `None` where it has none.
pub fn get_last_settlement_time(env: &Env, sender: &Address) -> (r: Option<u64>)
    requires
        contract_running(*env),
        persistent_readable(*env).contains(DataKey::LastSettlementTime(*sender).storage_key()),
        slot_fits(persistent_entries(*env), DataKey::LastSettlementTime(*sender)),
    ensures
        r == stored_u64(persistent_entries(*env), DataKey::LastSettlementTime(*sender).storage_key()),
{
    persistent_get_u64_by_addr(env, KeyTag::LastSettlementTime.symbol_text(), sender)
}

/// The time that has passed from `last` to `now`, zero where `now` comes
/// before `last`.
pub open spec fn elapsed_since(last: u64, now: u64) -> u64 {
    if now >= last {
        (now - last) as u64
    } else {
        0
    }
}

/// The verdict of the rate limit on a settlement at `now`, for a cooldown of
/// `cooldown` seconds and the sender's last settlement time, if any.
pub open spec fn rate_limit_verdict_spec(cooldown: u64, last_settlement: Option<u64>, now: u64) -> Result<(), ContractError> {
    if cooldown == 0 {
        Ok(())
    } else {
        match last_settlement {
            Some(last) => if elapsed_since(last, now) < cooldown {
                Err(ContractError::RateLimitExceeded)
            } else {
                Ok(())
            },
            None => Ok(()),
        }
    }
}

/// Decides the rate limit: a cooldown of zero disables it; a sender with no
/// settlement yet passes; otherwise the sender passes once `cooldown` seconds
/// have elapsed since the last settlement.
pub fn rate_limit_verdict(cooldown: u64, last_settlement: Option<u64>, now: u64) -> (r: Result<(), ContractError>)
    ensures
        r == rate_limit_verdict_spec(cooldown, last_settlement, now),
{
    if cooldown == 0 {
        return Ok(());
    }
    match last_settlement {
        Some(last_time) => {
            let elapsed: u64 = now.saturating_sub(last_time);
            if elapsed < cooldown {
                Err(ContractError::RateLimitExceeded)
            } else {
                Ok(())
            }
        },
        None => Ok(()),
    }
}

/// Checks whether `sender` may settle now.
///
/// Returns `Err(ContractError::NotInitialized)` when no cooldown is configured,
/// and otherwise the verdict of [`rate_limit_verdict`] for the configured
/// cooldown, the sender's last settlement time and the ledger time, which is
/// read only when the cooldown is non-zero and the sender has settled before.
pub fn check_rate_limit(env: &Env, sender: &Address) -> (r: Result<(), ContractError>)
    requires
        contract_running(*env),
        persistent_readable(*env).contains(DataKey::LastSettlementTime(*sender).storage_key()),
        slot_fits(instance_entries(*env), DataKey::RateLimitCooldown),
        slot_fits(persistent_entries(*env), DataKey::LastSettlementTime(*sender)),
    ensures
        ({
            let cooldown = stored_u64(instance_entries(*env), DataKey::RateLimitCooldown.storage_key());
            let last = stored_u64(persistent_entries(*env), DataKey::LastSettlementTime(*sender).storage_key());
            &&& cooldown is None ==> r == Err::<(), ContractError>(ContractError::NotInitialized)
            &&& cooldown matches Some(c) ==> exists|now: u64| r == #[trigger] rate_limit_verdict_spec(c, last, now)
        }),
{
    let cooldown: u64 = match get_rate_limit_cooldown(env) {
        Ok(c) => c,
        Err(e) => {
            return Err(e);
        },
    };
    if cooldown == 0 {
        proof {
            let last = stored_u64(persistent_entries(*env), DataKey::LastSettlementTime(*sender).storage_key());
            assert(rate_limit_verdict_spec(cooldown, last, 0) is Ok);
        }
        return Ok(());
    }
    match get_last_settlement_time(env, sender) {
        Some(last_time) => {
            let current_time: u64 = ledger_timestamp(env);
            rate_limit_verdict(cooldown, Some(last_time), current_time)
        },
        None => {
            proof {
                assert(rate_limit_verdict_spec(cooldown, None, 0) is Ok);
            }
            Ok(())
        },
    }
}

/// Sets the daily send limit for a currency and a country.
pub fn set_daily_limit(env: &mut Env, currency: &soroban_sdk::String, country: &soroban_sdk::String, limit: i128)
    requires
        contract_running(*old(env)),
        persistent_writable(*old(env)).contains(DataKey::DailyLimit(*currency, *country).storage_key()),
    ensures
        persistent_entries(*final(env)) == persistent_entries(*old(env)).insert(
            DataKey::DailyLimit(*currency, *country).storage_key(),
            StoredValue::DailyLimit((*currency, *country, limit)),
        ),
        instance_entries(*final(env)) == instance_entries(*old(env)),
        host_context_kept(*old(env), *final(env)),
{
    persistent_set_daily_limit_by_pair(env, KeyTag::DailyLimit.symbol_text(), currency, country, limit);
}

/// The daily send limit configured for a currency and a country, `None`
/// where none is.
pub fn get_daily_limit(env: &Env, currency: &soroban_sdk::String, country: &soroban_sdk::String) -> (r: Option<DailyLimit>)
    requires
        contract_running(*env),
        persistent_readable(*env).contains(DataKey::DailyLimit(*currency, *country).storage_key()),
        slot_fits(persistent_entries(*env), DataKey::DailyLimit(*currency, *country)),
    ensures
        r == (match stored_daily_limit(persistent_entries(*env), DataKey::DailyLimit(*currency, *country).storage_key()) {
            Some(record) => Some(DailyLimit::from_record_spec(record)),
            None => None,
        }),
{
    match persistent_get_daily_limit_by_pair(env, KeyTag::DailyLimit.symbol_text(), currency, country) {
        Some(record) => {
            let (currency, country, limit) = record;
            Some(DailyLimit { currency, country, limit })
        },
        None => None,
    }
}

/// The transfer history of `user`, oldest first; empty where none was stored.
pub fn get_user_transfers(env: &Env, user: &Address) -> (r: Vec<TransferRecord>)
    requires
        contract_running(*env),
        persistent_readable(*env).contains(DataKey::UserTransfers(*user).storage_key()),
        slot_fits(persistent_entries(*env), DataKey::UserTransfers(*user)),
    ensures
        r@ == transfers_in(persistent_entries(*env), *user),
{
    let mut out: Vec<TransferRecord> = Vec::new();
    match persistent_get_transfers_by_addr(env, KeyTag::UserTransfers.symbol_text(), user) {
        Some(stored) => {
            let n: u32 = transfer_vec_len(&stored);
            let ghost entries = transfer_entries(stored);
            let mut i: u32 = 0;
            while i < n
                invariant
                    i <= n,
                    n == entries.len(),
                    entries == transfer_entries(stored),
                    holds_transfer_entries(stored),
                    out@ == entries.subrange(0, i as int).map_values(
                        |e: TransferEntry| TransferRecord::from_entry_spec(e),
                    ),
                decreases n - i,
            {
                match transfer_vec_get(&stored, i) {
                    Some(entry) => {
                        out.push(TransferRecord { amount: entry.0, timestamp: entry.1 });
                    },
                    None => {},
                }
                proof {
                    assert(entries.subrange(0, i + 1) == entries.subrange(0, i as int).push(entries[i as int]));
                }
                i = i + 1;
            }
            proof {
                assert(entries.subrange(0, n as int) == entries);
            }
        },
        None => {},
    }
    out
}

/// Replaces the transfer history of `user`.
pub fn set_user_transfers(env: &mut Env, user: &Address, transfers: &Vec<TransferRecord>)
    requires
        contract_running(*old(env)),
        persistent_writable(*old(env)).contains(DataKey::UserTransfers(*user).storage_key()),
        transfers.len() <= u32::MAX,
    ensures
        instance_entries(*final(env)) == instance_entries(*old(env)),
        exists|v: soroban_sdk::Vec<TransferEntry>| {
            &&& #[trigger] transfer_entries(v) == transfers@.map_values(|t: TransferRecord| t.entry_spec())
            &&& holds_transfer_entries(v)
            &&& persistent_entries(*final(env)) == persistent_entries(*old(env)).insert(
                DataKey::UserTransfers(*user).storage_key(),
                StoredValue::Transfers(v),
            )
        },
        host_context_kept(*old(env), *final(env)),
{
    let mut stored = transfer_vec_new(env);
    let mut i: usize = 0;
    while i < transfers.len()
        invariant
            i <= transfers.len(),
            transfers.len() <= u32::MAX,
            holds_transfer_entries(stored),
            transfer_entries(stored) == transfers@.subrange(0, i as int).map_values(
                |t: TransferRecord| t.entry_spec(),
            ),
        decreases transfers.len() - i,
    {
        let t = transfers[i];
        transfer_vec_push_back(&mut stored, (t.amount, t.timestamp));
        proof {
            assert(transfers@.subrange(0, i + 1) == transfers@.subrange(0, i as int).push(transfers@[i as int]));
        }
        i = i + 1;
    }
    proof {
        assert(transfers@.subrange(0, transfers.len() as int) == transfers@);
    }
    persistent_set_transfers_by_addr(env, KeyTag::UserTransfers.symbol_text(), user, &stored);
}

// === Admin Role Management ===

/// Whether `address` holds the admin role; an address never granted it does
/// not.
pub fn is_admin(env: &Env, address: &Address) -> (r: bool)
    requires
        contract_running(*env),
        persistent_readable(*env).contains(DataKey::AdminRole(*address).storage_key()),
        slot_fits(persistent_entries(*env), DataKey::AdminRole(*address)),
    ensures
        r == flag_or_false(stored_bool(persistent_entries(*env), DataKey::AdminRole(*address).storage_key())),
{
    match persistent_get_bool_by_addr(env, KeyTag::AdminRole.symbol_text(), address) {
        Some(b) => b,
        None => false,
    }
}

/// Grants or revokes the admin role of `address`.
pub fn set_admin_role(env: &mut Env, address: &Address, is_admin: bool)
    requires
        contract_running(*old(env)),
        persistent_writable(*old(env)).contains(DataKey::AdminRole(*address).storage_key()),
    ensures
        persistent_entries(*final(env)) == persistent_entries(*old(env)).insert(
            DataKey::AdminRole(*address).storage_key(),
            StoredValue::Bool(is_admin),
        ),
        instance_entries(*final(env)) == instance_entries(*old(env)),
        host_context_kept(*old(env), *final(env)),
{
    persistent_set_bool_by_addr(env, KeyTag::AdminRole.symbol_text(), address, is_admin);
}

/// The number of admins; zero where it was never set.
pub fn get_admin_count(env: &Env) -> (r: u32)
    requires
        contract_running(*env),
        slot_fits(instance_entries(*env), DataKey::AdminCount),
    ensures
        r == (match stored_u32(instance_entries(*env), DataKey::AdminCount.storage_key()) {
            Some(c) => c,
            None => 0u32,
        }),
{
    match instance_get_u32(env, KeyTag::AdminCount.symbol_text()) {
        Some(c) => c,
        None => 0,
    }
}

/// Sets the number of admins.
pub fn set_admin_count(env: &mut Env, count: u32)
    requires
        contract_running(*old(env)),
    ensures
        instance_entries(*final(env)) == instance_entries(*old(env)).insert(
            DataKey::AdminCount.storage_key(),
            StoredValue::U32(count),
        ),
        persistent_entries(*final(env)) == persistent_entries(*old(env)),
        host_context_kept(*old(env), *final(env)),
{
    instance_set_u32(env, KeyTag::AdminCount.symbol_text(), count);
}

/// Requires `address` to have authorized the current invocation, then checks
/// that it holds the admin role.
///
/// The address is handed to the host's authorization check before the role is
/// read; where the host would not accept its authorization the invocation
/// aborts, which `requires` leaves out. Returns `Err(ContractError::Unauthorized)`
/// when the address does not hold the role.
pub fn require_admin(env: &mut Env, address: &Address) -> (r: Result<(), ContractError>)
    requires
        contract_running(*old(env)),
        auth_grants(*old(env)).contains(*address),
        persistent_readable(*old(env)).contains(DataKey::AdminRole(*address).storage_key()),
        slot_fits(persistent_entries(*old(env)), DataKey::AdminRole(*address)),
    ensures
        required_auths(*final(env)) == required_auths(*old(env)).push(*address),
        auth_grants(*final(env)).subset_of(auth_grants(*old(env))),
        contract_running(*final(env)) == contract_running(*old(env)),
        persistent_readable(*final(env)) == persistent_readable(*old(env)),
        persistent_writable(*final(env)) == persistent_writable(*old(env)),
        instance_entries(*final(env)) == instance_entries(*old(env)),
        persistent_entries(*final(env)) == persistent_entries(*old(env)),
        r == if flag_or_false(stored_bool(persistent_entries(*old(env)), DataKey::AdminRole(*address).storage_key())) {
            Ok::<(), ContractError>(())
        } else {
            Err(ContractError::Unauthorized)
        },
{
    require_auth(env, address);
    if !is_admin(env, address) {
        return Err(ContractError::Unauthorized);
    }
    Ok(())
}

// === Token Whitelist Management ===

/// Whether `token` is whitelisted; a token never whitelisted is not.
pub fn is_token_whitelisted(env: &Env, token: &Address) -> (r: bool)
    requires
        contract_running(*env),
        persistent_readable(*env).contains(DataKey::TokenWhitelisted(*token).storage_key()),
        slot_fits(persistent_entries(*env), DataKey::TokenWhitelisted(*token)),
    ensures
        r == flag_or_false(stored_bool(persistent_entries(*env), DataKey::TokenWhitelisted(*token).storage_key())),
{
    match persistent_get_bool_by_addr(env, KeyTag::TokenWhitelisted.symbol_text(), token) {
        Some(b) => b,
        None => false,
    }
}

/// Whitelists `token`, or removes it from the whitelist.
pub fn set_token_whitelisted(env: &mut Env, token: &Address, whitelisted: bool)
    requires
        contract_running(*old(env)),
        persistent_writable(*old(env)).contains(DataKey::TokenWhitelisted(*token).storage_key()),
    ensures
        persistent_entries(*final(env)) == persistent_entries(*old(env)).insert(
            DataKey::TokenWhitelisted(*token).storage_key(),
            StoredValue::Bool(whitelisted),
        ),
        instance_entries(*final(env)) == instance_entries(*old(env)),
        host_context_kept(*old(env), *final(env)),
{
    persistent_set_bool_by_addr(env, KeyTag::TokenWhitelisted.symbol_text(), token, whitelisted);
}

} // verus!
