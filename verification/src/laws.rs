//! Laws of the storage layer: what a read gives back of a write, what a write
//! leaves alone, what an untouched store reads as, and how the rate limit
//! behaves as time passes.

use vstd::prelude::*;
use soroban_sdk::{Address, Env};
use crate::errors::ContractError;
use crate::host::{holds_transfer_entries, instance_entries, persistent_entries, transfer_entries};
use crate::keys::{
    slot_fits, store_fits, stored_address, stored_bool, stored_daily_limit, stored_i128, stored_u32,
    stored_u64, DataKey, KeyTag, StorageKey, StoredValue, TransferEntry,
};
use crate::storage::{
    elapsed_since, flag_or_false, rate_limit_verdict_spec, remittance_in, required, transfers_in,
};
use crate::types::{DailyLimit, Remittance, TransferRecord};

verus! {

/// Distinct key variants are written under distinct symbols.
pub proof fn lemma_tag_text_injective(a: KeyTag, b: KeyTag)
    ensures
        a.text() == b.text() ==> a == b,
{
    reveal_strlit("Admin");
    reveal_strlit("AdminRole");
    reveal_strlit("AdminCount");
    reveal_strlit("UsdcToken");
    reveal_strlit("PlatformFeeBps");
    reveal_strlit("RemittanceCounter");
    reveal_strlit("Remittance");
    reveal_strlit("AgentRegistered");
    reveal_strlit("AccumulatedFees");
    reveal_strlit("Paused");
    reveal_strlit("SettlementHash");
    reveal_strlit("RateLimitCooldown");
    reveal_strlit("LastSettlementTime");
    reveal_strlit("DailyLimit");
    reveal_strlit("UserTransfers");
    reveal_strlit("TokenWhitelisted");
    if a.text() == b.text() && a != b {
        assert(a.text().len() == b.text().len());
        assert(a.text()[0] == b.text()[0]);
        assert(a.text()[1] == b.text()[1]);
        assert(a.text()[2] == b.text()[2]);
        assert(a.text()[3] == b.text()[3]);
        assert(a.text()[4] == b.text()[4]);
        assert(false);
    }
}

/// Every key is written under the name of its variant as leading symbol,
/// followed by the variant's fields, as the contract type encoding of the key
/// enum lays it out: storage written by earlier builds of the contract is read
/// under the same keys.
pub proof fn law_keys_are_named_by_their_variant(
    address: Address,
    id: u64,
    currency: soroban_sdk::String,
    country: soroban_sdk::String,
)
    ensures
        DataKey::Admin.storage_key() == StorageKey::Named("Admin"@),
        DataKey::AdminRole(address).storage_key() == StorageKey::ByAddress("AdminRole"@, address),
        DataKey::AdminCount.storage_key() == StorageKey::Named("AdminCount"@),
        DataKey::UsdcToken.storage_key() == StorageKey::Named("UsdcToken"@),
        DataKey::PlatformFeeBps.storage_key() == StorageKey::Named("PlatformFeeBps"@),
        DataKey::RemittanceCounter.storage_key() == StorageKey::Named("RemittanceCounter"@),
        DataKey::Remittance(id).storage_key() == StorageKey::ById("Remittance"@, id),
        DataKey::AgentRegistered(address).storage_key() == StorageKey::ByAddress("AgentRegistered"@, address),
        DataKey::AccumulatedFees.storage_key() == StorageKey::Named("AccumulatedFees"@),
        DataKey::Paused.storage_key() == StorageKey::Named("Paused"@),
        DataKey::SettlementHash(id).storage_key() == StorageKey::ById("SettlementHash"@, id),
        DataKey::RateLimitCooldown.storage_key() == StorageKey::Named("RateLimitCooldown"@),
        DataKey::LastSettlementTime(address).storage_key() == StorageKey::ByAddress("LastSettlementTime"@, address),
        DataKey::DailyLimit(currency, country).storage_key() == StorageKey::ByPair("DailyLimit"@, currency, country),
        DataKey::UserTransfers(address).storage_key() == StorageKey::ByAddress("UserTransfers"@, address),
        DataKey::TokenWhitelisted(address).storage_key() == StorageKey::ByAddress("TokenWhitelisted"@, address),
{
}

/// The symbol text that each key variant is written with is its variant's
/// name.
pub proof fn law_tag_texts_are_variant_names()
    ensures
        KeyTag::Admin.text() == "Admin"@,
        KeyTag::AdminRole.text() == "AdminRole"@,
        KeyTag::AdminCount.text() == "AdminCount"@,
        KeyTag::UsdcToken.text() == "UsdcToken"@,
        KeyTag::PlatformFeeBps.text() == "PlatformFeeBps"@,
        KeyTag::RemittanceCounter.text() == "RemittanceCounter"@,
        KeyTag::Remittance.text() == "Remittance"@,
        KeyTag::AgentRegistered.text() == "AgentRegistered"@,
        KeyTag::AccumulatedFees.text() == "AccumulatedFees"@,
        KeyTag::Paused.text() == "Paused"@,
        KeyTag::SettlementHash.text() == "SettlementHash"@,
        KeyTag::RateLimitCooldown.text() == "RateLimitCooldown"@,
        KeyTag::LastSettlementTime.text() == "LastSettlementTime"@,
        KeyTag::DailyLimit.text() == "DailyLimit"@,
        KeyTag::UserTransfers.text() == "UserTransfers"@,
        KeyTag::TokenWhitelisted.text() == "TokenWhitelisted"@,
{
}

/// Distinct keys occupy distinct slots of the host's storage.
pub broadcast proof fn law_distinct_keys_distinct_slots(a: DataKey, b: DataKey)
    ensures
        #![trigger a.storage_key(), b.storage_key()]
        a.storage_key() == b.storage_key() ==> a == b,
{
    lemma_tag_text_injective(a.tag(), b.tag());
}

/// A write to one key leaves what every other key holds unchanged.
pub proof fn law_write_leaves_other_keys(m: Map<StorageKey, StoredValue>, written: DataKey, v: StoredValue, other: DataKey)
    requires
        written != other,
    ensures
        m.insert(written.storage_key(), v).get(other.storage_key()) == m.get(other.storage_key()),
        slot_fits(m, other) ==> slot_fits(m.insert(written.storage_key(), v), other),
{
    law_distinct_keys_distinct_slots(written, other);
}

/// A write of a value of the key's type keeps every slot of the store holding
/// a value of its key's type.
pub proof fn law_write_keeps_store_fitting(m: Map<StorageKey, StoredValue>, key: DataKey, v: StoredValue)
    requires
        store_fits(m),
        key.fits(v),
    ensures
        store_fits(m.insert(key.storage_key(), v)),
{
    assert forall|other: DataKey| #[trigger] slot_fits(m.insert(key.storage_key(), v), other) by {
        law_distinct_keys_distinct_slots(key, other);
        assert(slot_fits(m, other));
    }
}

/// Every setter writes a value of its key's type.
pub proof fn law_setters_write_fitting_values(
    address: Address,
    currency: soroban_sdk::String,
    country: soroban_sdk::String,
    flag: bool,
    small: u32,
    large: u64,
    amount: i128,
    id: u64,
    remittance: Remittance,
    stored: soroban_sdk::Vec<TransferEntry>,
)
    requires
        holds_transfer_entries(stored),
    ensures
        DataKey::Admin.fits(StoredValue::Address(address)),
        DataKey::UsdcToken.fits(StoredValue::Address(address)),
        DataKey::PlatformFeeBps.fits(StoredValue::U32(small)),
        DataKey::AdminCount.fits(StoredValue::U32(small)),
        DataKey::RemittanceCounter.fits(StoredValue::U64(large)),
        DataKey::RateLimitCooldown.fits(StoredValue::U64(large)),
        DataKey::LastSettlementTime(address).fits(StoredValue::U64(large)),
        DataKey::AccumulatedFees.fits(StoredValue::I128(amount)),
        DataKey::Paused.fits(StoredValue::Bool(flag)),
        DataKey::AgentRegistered(address).fits(StoredValue::Bool(flag)),
        DataKey::AdminRole(address).fits(StoredValue::Bool(flag)),
        DataKey::TokenWhitelisted(address).fits(StoredValue::Bool(flag)),
        DataKey::SettlementHash(id).fits(StoredValue::Bool(true)),
        DataKey::Remittance(id).fits(StoredValue::Remittance(remittance.record_spec())),
        DataKey::DailyLimit(currency, country).fits(StoredValue::DailyLimit((currency, country, amount))),
        DataKey::UserTransfers(address).fits(StoredValue::Transfers(stored)),
{
}

/// A remittance read back from its on-host form is the remittance written.
pub proof fn law_remittance_record_round_trip(r: Remittance)
    ensures
        r.record_spec().5 < 3,
        Remittance::from_record_spec(r.record_spec()) == r,
{
}

/// After `set_admin(admin)`, `has_admin` is `true` and `get_admin` returns `admin`.
pub proof fn law_admin_read_after_write(before: Env, after: Env, admin: Address)
    requires
        instance_entries(after) == instance_entries(before).insert(
            DataKey::Admin.storage_key(),
            StoredValue::Address(admin),
        ),
    ensures
        instance_entries(after).contains_key(DataKey::Admin.storage_key()),
        required(stored_address(instance_entries(after), DataKey::Admin.storage_key())) == Ok::<Address, ContractError>(admin),
{
}

/// Where the admin slot holds an address or nothing, `has_admin` is `true`
/// exactly when `get_admin` succeeds.
pub proof fn law_has_admin_iff_get_admin_succeeds(env: Env)
    requires
        slot_fits(instance_entries(env), DataKey::Admin),
    ensures
        instance_entries(env).contains_key(DataKey::Admin.storage_key())
            <==> required(stored_address(instance_entries(env), DataKey::Admin.storage_key())) is Ok,
{
}

/// After `set_usdc_token(token)`, `get_usdc_token` returns `token`.
pub proof fn law_usdc_token_read_after_write(before: Env, after: Env, token: Address)
    requires
        instance_entries(after) == instance_entries(before).insert(
            DataKey::UsdcToken.storage_key(),
            StoredValue::Address(token),
        ),
    ensures
        required(stored_address(instance_entries(after), DataKey::UsdcToken.storage_key())) == Ok::<Address, ContractError>(token),
{
}

/// After `set_platform_fee_bps(fee_bps)`, `get_platform_fee_bps` returns `fee_bps`.
pub proof fn law_platform_fee_read_after_write(before: Env, after: Env, fee_bps: u32)
    requires
        instance_entries(after) == instance_entries(before).insert(
            DataKey::PlatformFeeBps.storage_key(),
            StoredValue::U32(fee_bps),
        ),
    ensures
        required(stored_u32(instance_entries(after), DataKey::PlatformFeeBps.storage_key())) == Ok::<u32, ContractError>(fee_bps),
{
}

/// After `set_remittance_counter(counter)`, `get_remittance_counter` returns `counter`.
pub proof fn law_remittance_counter_read_after_write(before: Env, after: Env, counter: u64)
    requires
        instance_entries(after) == instance_entries(before).insert(
            DataKey::RemittanceCounter.storage_key(),
            StoredValue::U64(counter),
        ),
    ensures
        required(stored_u64(instance_entries(after), DataKey::RemittanceCounter.storage_key())) == Ok::<u64, ContractError>(counter),
{
}

/// After `set_accumulated_fees(fees)`, `get_accumulated_fees` returns `fees`.
pub proof fn law_accumulated_fees_read_after_write(before: Env, after: Env, fees: i128)
    requires
        instance_entries(after) == instance_entries(before).insert(
            DataKey::AccumulatedFees.storage_key(),
            StoredValue::I128(fees),
        ),
    ensures
        required(stored_i128(instance_entries(after), DataKey::AccumulatedFees.storage_key())) == Ok::<i128, ContractError>(fees),
{
}

/// After `set_rate_limit_cooldown(cooldown_seconds)`, `get_rate_limit_cooldown`
/// returns `cooldown_seconds`.
pub proof fn law_cooldown_read_after_write(before: Env, after: Env, cooldown_seconds: u64)
    requires
        instance_entries(after) == instance_entries(before).insert(
            DataKey::RateLimitCooldown.storage_key(),
            StoredValue::U64(cooldown_seconds),
        ),
    ensures
        required(stored_u64(instance_entries(after), DataKey::RateLimitCooldown.storage_key())) == Ok::<u64, ContractError>(cooldown_seconds),
{
}

/// After `set_admin_count(count)`, `get_admin_count` returns `count`.
pub proof fn law_admin_count_read_after_write(before: Env, after: Env, count: u32)
    requires
        instance_entries(after) == instance_entries(before).insert(
            DataKey::AdminCount.storage_key(),
            StoredValue::U32(count),
        ),
    ensures
        stored_u32(instance_entries(after), DataKey::AdminCount.storage_key()) == Some(count),
{
}

/// After `set_paused(paused)`, `is_paused` returns `paused`.
pub proof fn law_paused_read_after_write(before: Env, after: Env, paused: bool)
    requires
        instance_entries(after) == instance_entries(before).insert(
            DataKey::Paused.storage_key(),
            StoredValue::Bool(paused),
        ),
    ensures
        flag_or_false(stored_bool(instance_entries(after), DataKey::Paused.storage_key())) == paused,
{
}

/// After `set_agent_registered(agent, registered)`, `is_agent_registered(agent)`
/// returns `registered`: registering makes an agent, removing unmakes it.
pub proof fn law_agent_read_after_write(before: Env, after: Env, agent: Address, registered: bool)
    requires
        persistent_entries(after) == persistent_entries(before).insert(
            DataKey::AgentRegistered(agent).storage_key(),
            StoredValue::Bool(registered),
        ),
    ensures
        flag_or_false(stored_bool(persistent_entries(after), DataKey::AgentRegistered(agent).storage_key())) == registered,
{
}

/// After `set_admin_role(address, is_admin)`, `is_admin(address)` returns
/// `is_admin`, and `require_admin(address)` returns `Ok` when it is `true` and
/// `Err(Unauthorized)` when it is `false`: granting and revoking take effect at
/// once.
pub proof fn law_admin_role_read_after_write(before: Env, after: Env, address: Address, is_admin: bool)
    requires
        persistent_entries(after) == persistent_entries(before).insert(
            DataKey::AdminRole(address).storage_key(),
            StoredValue::Bool(is_admin),
        ),
    ensures
        flag_or_false(stored_bool(persistent_entries(after), DataKey::AdminRole(address).storage_key())) == is_admin,
        (if flag_or_false(stored_bool(persistent_entries(after), DataKey::AdminRole(address).storage_key())) {
            Ok::<(), ContractError>(())
        } else {
            Err(ContractError::Unauthorized)
        }) == (if is_admin {
            Ok::<(), ContractError>(())
        } else {
            Err(ContractError::Unauthorized)
        }),
{
}

/// After `set_token_whitelisted(token, whitelisted)`, `is_token_whitelisted(token)`
/// returns `whitelisted`.
pub proof fn law_whitelist_read_after_write(before: Env, after: Env, token: Address, whitelisted: bool)
    requires
        persistent_entries(after) == persistent_entries(before).insert(
            DataKey::TokenWhitelisted(token).storage_key(),
            StoredValue::Bool(whitelisted),
        ),
    ensures
        flag_or_false(stored_bool(persistent_entries(after), DataKey::TokenWhitelisted(token).storage_key())) == whitelisted,
{
}

/// After `set_settlement_hash(id)`, `has_settlement_hash(id)` is `true`, and no
/// write to another key makes it `false` again.
pub proof fn law_settlement_is_remembered(m: Map<StorageKey, StoredValue>, id: u64, other: DataKey, v: StoredValue)
    requires
        other != DataKey::SettlementHash(id),
    ensures
        m.insert(DataKey::SettlementHash(id).storage_key(), StoredValue::Bool(true)).contains_key(
            DataKey::SettlementHash(id).storage_key(),
        ),
        m.insert(DataKey::SettlementHash(id).storage_key(), StoredValue::Bool(true))
            .insert(other.storage_key(), v)
            .contains_key(DataKey::SettlementHash(id).storage_key()),
{
    law_distinct_keys_distinct_slots(other, DataKey::SettlementHash(id));
}

/// What one call of this module does to a store: it leaves the store as it
/// was, or writes one key of the contract. No call removes a key.
pub open spec fn is_module_write(before: Map<StorageKey, StoredValue>, after: Map<StorageKey, StoredValue>) -> bool {
    ||| after == before
    ||| exists|k: DataKey, v: StoredValue| after == #[trigger] before.insert(k.storage_key(), v)
}

/// A write of one key, as every setter of this module makes, is a module write.
pub proof fn law_key_write_is_module_write(m: Map<StorageKey, StoredValue>, key: DataKey, v: StoredValue)
    ensures
        is_module_write(m, m.insert(key.storage_key(), v)),
{
}

/// Once `set_settlement_hash(id)` has run, `has_settlement_hash(id)` stays
/// `true` through any sequence of later calls of this module: no call clears a
/// settlement mark.
pub proof fn law_settlement_mark_persists(states: Seq<Map<StorageKey, StoredValue>>, id: u64)
    requires
        states.len() > 0,
        states[0].contains_key(DataKey::SettlementHash(id).storage_key()),
        forall|i: int| 0 <= i < states.len() - 1 ==> is_module_write(states[i], #[trigger] states[i + 1]),
    ensures
        forall|i: int| 0 <= i < states.len() ==> #[trigger] states[i].contains_key(DataKey::SettlementHash(id).storage_key()),
    decreases states.len(),
{
    if states.len() > 1 {
        let prefix = states.drop_last();
        assert forall|i: int| 0 <= i < prefix.len() - 1 implies is_module_write(prefix[i], #[trigger] prefix[i + 1]) by {
            assert(is_module_write(states[i], states[i + 1]));
        }
        law_settlement_mark_persists(prefix, id);
        let last = states.len() - 1;
        assert(prefix[last - 1].contains_key(DataKey::SettlementHash(id).storage_key()));
        let j = last - 1;
        assert(is_module_write(states[j], states[j + 1]));
        if states[last] != states[j] {
            let (k, v) = choose|k: DataKey, v: StoredValue| states[j + 1] == #[trigger] states[j].insert(k.storage_key(), v);
            assert(states[last] == states[j].insert(k.storage_key(), v));
        }
        assert forall|i: int| 0 <= i < states.len() implies #[trigger] states[i].contains_key(DataKey::SettlementHash(id).storage_key()) by {
            if i < last {
                assert(prefix[i] == states[i]);
            }
        }
    }
}

/// After `set_last_settlement_time(sender, timestamp)`,
/// `get_last_settlement_time(sender)` returns `Some(timestamp)`.
pub proof fn law_last_settlement_read_after_write(before: Env, after: Env, sender: Address, timestamp: u64)
    requires
        persistent_entries(after) == persistent_entries(before).insert(
            DataKey::LastSettlementTime(sender).storage_key(),
            StoredValue::U64(timestamp),
        ),
    ensures
        stored_u64(persistent_entries(after), DataKey::LastSettlementTime(sender).storage_key()) == Some(timestamp),
{
}

/// After `set_remittance(id, remittance)`, `get_remittance(id)` returns the
/// remittance written.
pub proof fn law_remittance_read_after_write(before: Env, after: Env, id: u64, remittance: Remittance)
    requires
        persistent_entries(after) == persistent_entries(before).insert(
            DataKey::Remittance(id).storage_key(),
            StoredValue::Remittance(remittance.record_spec()),
        ),
    ensures
        remittance_in(persistent_entries(after), id) == Ok::<Remittance, ContractError>(remittance),
{
    law_remittance_record_round_trip(remittance);
}

/// Remittances are keyed by id: after `set_remittance(id1, r1)` and then
/// `set_remittance(id2, r2)` with `id1 != id2`, `get_remittance(id1)` returns
/// `r1` and `get_remittance(id2)` returns `r2`.
pub proof fn law_remittances_do_not_overwrite(
    m: Map<StorageKey, StoredValue>,
    id1: u64,
    r1: Remittance,
    id2: u64,
    r2: Remittance,
)
    requires
        id1 != id2,
    ensures
        ({
            let after = m.insert(DataKey::Remittance(id1).storage_key(), StoredValue::Remittance(r1.record_spec()))
                .insert(DataKey::Remittance(id2).storage_key(), StoredValue::Remittance(r2.record_spec()));
            &&& remittance_in(after, id1) == Ok::<Remittance, ContractError>(r1)
            &&& remittance_in(after, id2) == Ok::<Remittance, ContractError>(r2)
        }),
{
    law_distinct_keys_distinct_slots(DataKey::Remittance(id1), DataKey::Remittance(id2));
    law_remittance_record_round_trip(r1);
    law_remittance_record_round_trip(r2);
}

/// The daily-limit slot of `currency` and `country` in `m` is empty or holds
/// a limit of that currency and that country.
pub open spec fn daily_limit_matches_key(m: Map<StorageKey, StoredValue>, currency: soroban_sdk::String, country: soroban_sdk::String) -> bool {
    match stored_daily_limit(m, DataKey::DailyLimit(currency, country).storage_key()) {
        Some(r) => r.0 == currency && r.1 == country,
        None => true,
    }
}

/// Every daily-limit slot of `m` holds the limit of the currency and country
/// it is keyed by.
pub open spec fn daily_limits_match_keys(m: Map<StorageKey, StoredValue>) -> bool {
    forall|c: soroban_sdk::String, k: soroban_sdk::String| #[trigger] daily_limit_matches_key(m, c, k)
}

/// `set_daily_limit(currency, country, limit)` keeps every daily-limit slot
/// holding the limit of its own currency and country, and the written slot
/// holds `limit`; so does a write of any other key.
pub proof fn law_daily_limits_stay_matched(
    m: Map<StorageKey, StoredValue>,
    currency: soroban_sdk::String,
    country: soroban_sdk::String,
    limit: i128,
    other: DataKey,
    v: StoredValue,
)
    requires
        daily_limits_match_keys(m),
    ensures
        ({
            let after = m.insert(
                DataKey::DailyLimit(currency, country).storage_key(),
                StoredValue::DailyLimit((currency, country, limit)),
            );
            &&& daily_limits_match_keys(after)
            &&& stored_daily_limit(after, DataKey::DailyLimit(currency, country).storage_key())
                == Some((currency, country, limit))
        }),
        !(other is DailyLimit) ==> daily_limits_match_keys(m.insert(other.storage_key(), v)),
{
    let after = m.insert(
        DataKey::DailyLimit(currency, country).storage_key(),
        StoredValue::DailyLimit((currency, country, limit)),
    );
    assert forall|c: soroban_sdk::String, k: soroban_sdk::String| #[trigger] daily_limit_matches_key(after, c, k) by {
        law_distinct_keys_distinct_slots(DataKey::DailyLimit(c, k), DataKey::DailyLimit(currency, country));
        assert(daily_limit_matches_key(m, c, k));
    }
    if !(other is DailyLimit) {
        let after2 = m.insert(other.storage_key(), v);
        assert forall|c: soroban_sdk::String, k: soroban_sdk::String| #[trigger] daily_limit_matches_key(after2, c, k) by {
            law_distinct_keys_distinct_slots(DataKey::DailyLimit(c, k), other);
            assert(daily_limit_matches_key(m, c, k));
        }
    }
}

/// What one call of this module that does not write `key` does to a store: it
/// leaves the store as it was, or writes one other key.
pub open spec fn is_write_avoiding(before: Map<StorageKey, StoredValue>, after: Map<StorageKey, StoredValue>, key: DataKey) -> bool {
    ||| after == before
    ||| exists|k: DataKey, v: StoredValue| k != key && after == #[trigger] before.insert(k.storage_key(), v)
}

/// The last write of a key is what the key reads: where `key` holds `v`, it
/// still holds `v` after any sequence of calls of this module that do not
/// write `key`. With each setter's read-after-write law, this is what every
/// getter returns after the last write of its key.
pub proof fn law_last_write_is_read(states: Seq<Map<StorageKey, StoredValue>>, key: DataKey, v: StoredValue)
    requires
        states.len() > 0,
        states[0].get(key.storage_key()) == Some(v),
        forall|i: int| 0 <= i < states.len() - 1 ==> is_write_avoiding(states[i], #[trigger] states[i + 1], key),
    ensures
        forall|i: int| 0 <= i < states.len() ==> #[trigger] states[i].get(key.storage_key()) == Some(v),
    decreases states.len(),
{
    if states.len() > 1 {
        let prefix = states.drop_last();
        assert forall|i: int| 0 <= i < prefix.len() - 1 implies is_write_avoiding(prefix[i], #[trigger] prefix[i + 1], key) by {
            assert(is_write_avoiding(states[i], states[i + 1], key));
        }
        law_last_write_is_read(prefix, key, v);
        let last = states.len() - 1;
        let j = last - 1;
        assert(prefix[j].get(key.storage_key()) == Some(v));
        assert(is_write_avoiding(states[j], states[j + 1], key));
        if states[last] != states[j] {
            let (k, w) = choose|k: DataKey, w: StoredValue| k != key && states[j + 1] == #[trigger] states[j].insert(k.storage_key(), w);
            law_distinct_keys_distinct_slots(k, key);
            assert(states[last] == states[j].insert(k.storage_key(), w));
        }
        assert forall|i: int| 0 <= i < states.len() implies #[trigger] states[i].get(key.storage_key()) == Some(v) by {
            if i < last {
                assert(prefix[i] == states[i]);
            }
        }
    }
}

/// After `set_daily_limit(currency, country, limit)`,
/// `get_daily_limit(currency, country)` returns that limit for that pair.
pub proof fn law_daily_limit_read_after_write(
    before: Env,
    after: Env,
    currency: soroban_sdk::String,
    country: soroban_sdk::String,
    limit: i128,
)
    requires
        persistent_entries(after) == persistent_entries(before).insert(
            DataKey::DailyLimit(currency, country).storage_key(),
            StoredValue::DailyLimit((currency, country, limit)),
        ),
    ensures
        stored_daily_limit(persistent_entries(after), DataKey::DailyLimit(currency, country).storage_key())
            matches Some(record) && DailyLimit::from_record_spec(record) == (DailyLimit { currency, country, limit }),
{
}

/// After `set_user_transfers(user, transfers)`, `get_user_transfers(user)`
/// returns `transfers`.
pub proof fn law_transfers_read_after_write(
    before: Env,
    after: Env,
    user: Address,
    transfers: Seq<TransferRecord>,
    stored: soroban_sdk::Vec<TransferEntry>,
)
    requires
        transfer_entries(stored) == transfers.map_values(|t: TransferRecord| t.entry_spec()),
        persistent_entries(after) == persistent_entries(before).insert(
            DataKey::UserTransfers(user).storage_key(),
            StoredValue::Transfers(stored),
        ),
    ensures
        transfers_in(persistent_entries(after), user) == transfers,
{
    assert(transfers_in(persistent_entries(after), user) =~= transfers);
}

/// A store that was never written reads as the defaults: no admin, no
/// configuration, not paused, no agents, admins or whitelisted tokens, an admin
/// count of zero, no remittances, settlements, limits or transfers.
pub proof fn law_untouched_store_defaults(
    instance: Map<StorageKey, StoredValue>,
    persistent: Map<StorageKey, StoredValue>,
    address: Address,
    id: u64,
    currency: soroban_sdk::String,
    country: soroban_sdk::String,
)
    requires
        instance == Map::<StorageKey, StoredValue>::empty(),
        persistent == Map::<StorageKey, StoredValue>::empty(),
    ensures
        store_fits(instance),
        store_fits(persistent),
        !instance.contains_key(DataKey::Admin.storage_key()),
        required(stored_address(instance, DataKey::Admin.storage_key())) == Err::<Address, ContractError>(ContractError::NotInitialized),
        required(stored_address(instance, DataKey::UsdcToken.storage_key())) == Err::<Address, ContractError>(ContractError::NotInitialized),
        required(stored_u32(instance, DataKey::PlatformFeeBps.storage_key())) == Err::<u32, ContractError>(ContractError::NotInitialized),
        required(stored_u64(instance, DataKey::RemittanceCounter.storage_key())) == Err::<u64, ContractError>(ContractError::NotInitialized),
        required(stored_i128(instance, DataKey::AccumulatedFees.storage_key())) == Err::<i128, ContractError>(ContractError::NotInitialized),
        required(stored_u64(instance, DataKey::RateLimitCooldown.storage_key())) == Err::<u64, ContractError>(ContractError::NotInitialized),
        stored_u32(instance, DataKey::AdminCount.storage_key()) is None,
        !flag_or_false(stored_bool(instance, DataKey::Paused.storage_key())),
        !flag_or_false(stored_bool(persistent, DataKey::AgentRegistered(address).storage_key())),
        !flag_or_false(stored_bool(persistent, DataKey::AdminRole(address).storage_key())),
        !flag_or_false(stored_bool(persistent, DataKey::TokenWhitelisted(address).storage_key())),
        !persistent.contains_key(DataKey::SettlementHash(id).storage_key()),
        stored_u64(persistent, DataKey::LastSettlementTime(address).storage_key()) is None,
        remittance_in(persistent, id) == Err::<Remittance, ContractError>(ContractError::RemittanceNotFound),
        stored_daily_limit(persistent, DataKey::DailyLimit(currency, country).storage_key()) is None,
        transfers_in(persistent, address) == Seq::<TransferRecord>::empty(),
{
}

/// A cooldown of zero lets every settlement through.
pub proof fn law_zero_cooldown_never_limits(last_settlement: Option<u64>, now: u64)
    ensures
        rate_limit_verdict_spec(0, last_settlement, now) == Ok::<(), ContractError>(()),
{
}

/// A sender that never settled is never limited.
pub proof fn law_first_settlement_never_limited(cooldown: u64, now: u64)
    ensures
        rate_limit_verdict_spec(cooldown, None, now) == Ok::<(), ContractError>(()),
{
}

/// With a non-zero cooldown, a sender that settled at `last` is limited exactly
/// while fewer than `cooldown` seconds have passed since.
pub proof fn law_limited_exactly_within_cooldown(cooldown: u64, last: u64, now: u64)
    requires
        cooldown > 0,
    ensures
        rate_limit_verdict_spec(cooldown, Some(last), now) == Err::<(), ContractError>(ContractError::RateLimitExceeded)
            <==> elapsed_since(last, now) < cooldown,
        rate_limit_verdict_spec(cooldown, Some(last), now) is Ok || rate_limit_verdict_spec(cooldown, Some(last), now) == Err::<(), ContractError>(ContractError::RateLimitExceeded),
{
}

/// Once a sender may settle, it may still settle at any later time.
pub proof fn law_rate_limit_lifts_for_good(cooldown: u64, last_settlement: Option<u64>, now: u64, later: u64)
    requires
        rate_limit_verdict_spec(cooldown, last_settlement, now) is Ok,
        now <= later,
    ensures
        rate_limit_verdict_spec(cooldown, last_settlement, later) is Ok,
{
}

} // verus!
