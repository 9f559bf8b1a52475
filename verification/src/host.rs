//! The Soroban host as the library sees it.
//!
//! The contract's instance and persistent storages are key-value stores held
//! by the host of the executing contract. Their contents are named here as
//! maps; every read and write of the library goes through one of the trusted
//! items of this module, whose contracts state what the `soroban_sdk` source
//! does to those maps.
//!
//! Beside the contents, the host's state that decides whether a call returns
//! at all is named too: whether a contract is executing, which persistent keys
//! the current invocation may read and write, which addresses the host would
//! accept in `require_auth`, and which it has been asked for. Each wrapper
//! requires what the source needs in order to return.
//!
//! An `Env` is a handle to its host; the names read it as the state of the
//! host behind it. That reading holds as long as the host changes only through
//! a `&mut Env` that the contracts see: the library never clones an `Env`, and
//! every function that changes host state takes the `Env` by `&mut`.
//!
//! One cause of an abort is stated nowhere: the host meters every call against
//! the invocation's CPU and memory budget and aborts the invocation once that
//! budget is spent. Whether it is spent depends on everything the invocation
//! did before, which no clause here can name.

use vstd::prelude::*;
use crate::keys::{
    is_symbol_text, stored_address, stored_bool, stored_daily_limit, stored_i128, stored_remittance,
    stored_transfers, stored_u32, stored_u64, DailyLimitRecord, RemittanceRecord, StorageKey,
    StoredValue, TransferEntry,
};

verus! {

#[verifier::external_type_specification]
#[verifier::external_body]
pub struct ExEnv(soroban_sdk::Env);

#[verifier::external_type_specification]
#[verifier::external_body]
pub struct ExAddress(soroban_sdk::Address);

#[verifier::external_type_specification]
#[verifier::external_body]
pub struct ExSorobanString(soroban_sdk::String);

#[verifier::external_type_specification]
#[verifier::external_body]
#[verifier::reject_recursive_types(T)]
pub struct ExSorobanVec<T>(soroban_sdk::Vec<T>);

/// What the instance storage of the executing contract holds.
pub uninterp spec fn instance_entries(env: soroban_sdk::Env) -> Map<StorageKey, StoredValue>;

/// What the persistent storage of the executing contract holds.
pub uninterp spec fn persistent_entries(env: soroban_sdk::Env) -> Map<StorageKey, StoredValue>;

/// Whether a contract is executing in the host of `env`: the SDK asserts it
/// before any storage access, and the host refuses storage access without it.
pub uninterp spec fn contract_running(env: soroban_sdk::Env) -> bool;

/// The persistent keys that the current invocation may read: keys of the
/// transaction's footprint whose entries are not archived. The host aborts a
/// read of any other key.
pub uninterp spec fn persistent_readable(env: soroban_sdk::Env) -> Set<StorageKey>;

/// The persistent keys that the current invocation may write: keys of the
/// transaction's read-write footprint whose entries are not archived. The host
/// aborts a write of any other key.
pub uninterp spec fn persistent_writable(env: soroban_sdk::Env) -> Set<StorageKey>;

/// The addresses whose authorization the host would accept in a `require_auth`
/// made now from the executing contract.
pub uninterp spec fn auth_grants(env: soroban_sdk::Env) -> Set<soroban_sdk::Address>;

/// The addresses whose authorization the current invocation has required, in
/// order.
pub uninterp spec fn required_auths(env: soroban_sdk::Env) -> Seq<soroban_sdk::Address>;

/// Nothing that decides whether later host calls return has changed from
/// `before` to `after`: a contract is running in one exactly when in the
/// other, the same persistent keys may be read and written, and the same
/// authorizations are granted and required.
pub open spec fn host_context_kept(before: soroban_sdk::Env, after: soroban_sdk::Env) -> bool {
    &&& contract_running(after) == contract_running(before)
    &&& persistent_readable(after) == persistent_readable(before)
    &&& persistent_writable(after) == persistent_writable(before)
    &&& auth_grants(after) == auth_grants(before)
    &&& required_auths(after) == required_auths(before)
}

/// `Instance::has` with a field-less key: whether the instance storage holds
/// a value under the key.
#[verifier::external_body]
pub(crate) fn instance_has(env: &soroban_sdk::Env, name: &str) -> (r: bool)
    requires
        is_symbol_text(name@),
        contract_running(*env),
    ensures
        r == instance_entries(*env).contains_key(StorageKey::Named(name@)),
{
    env.storage().instance().has(&(soroban_sdk::Symbol::new(env, name),))
}

/// `Instance::get` with a field-less key and a `address` value: `Some` of the
/// value the key holds, `None` where it holds none. The source panics where the
/// key holds a value of another type, which `requires` leaves out.
#[verifier::external_body]
pub(crate) fn instance_get_address(env: &soroban_sdk::Env, name: &str) -> (r: Option<soroban_sdk::Address>)
    requires
        is_symbol_text(name@),
        contract_running(*env),
        instance_entries(*env).contains_key(StorageKey::Named(name@))
            ==> instance_entries(*env)[StorageKey::Named(name@)] is Address,
    ensures
        r == stored_address(instance_entries(*env), StorageKey::Named(name@)),
{
    env.storage().instance().get(&(soroban_sdk::Symbol::new(env, name),))
}

/// `Instance::set` with a field-less key and a `address` value: the instance
/// storage maps the key to the value afterwards, and nothing else changes.
#[verifier::external_body]
pub(crate) fn instance_set_address(env: &mut soroban_sdk::Env, name: &str, value: &soroban_sdk::Address)
    requires
        is_symbol_text(name@),
        contract_running(*old(env)),
    ensures
        instance_entries(*final(env)) == instance_entries(*old(env)).insert(
            StorageKey::Named(name@),
            StoredValue::Address(*value),
        ),
        persistent_entries(*final(env)) == persistent_entries(*old(env)),
        host_context_kept(*old(env), *final(env)),
{
    env.storage().instance().set(&(soroban_sdk::Symbol::new(env, name),), value);
}

/// `Instance::get` with a field-less key and a `u32` value: `Some` of the
/// value the key holds, `None` where it holds none. The source panics where the
/// key holds a value of another type, which `requires` leaves out.
#[verifier::external_body]
pub(crate) fn instance_get_u32(env: &soroban_sdk::Env, name: &str) -> (r: Option<u32>)
    requires
        is_symbol_text(name@),
        contract_running(*env),
        instance_entries(*env).contains_key(StorageKey::Named(name@))
            ==> instance_entries(*env)[StorageKey::Named(name@)] is U32,
    ensures
        r == stored_u32(instance_entries(*env), StorageKey::Named(name@)),
{
    env.storage().instance().get(&(soroban_sdk::Symbol::new(env, name),))
}

/// `Instance::set` with a field-less key and a `u32` value: the instance
/// storage maps the key to the value afterwards, and nothing else changes.
#[verifier::external_body]
pub(crate) fn instance_set_u32(env: &mut soroban_sdk::Env, name: &str, value: u32)
    requires
        is_symbol_text(name@),
        contract_running(*old(env)),
    ensures
        instance_entries(*final(env)) == instance_entries(*old(env)).insert(
            StorageKey::Named(name@),
            StoredValue::U32(value),
        ),
        persistent_entries(*final(env)) == persistent_entries(*old(env)),
        host_context_kept(*old(env), *final(env)),
{
    env.storage().instance().set(&(soroban_sdk::Symbol::new(env, name),), &value);
}

/// `Instance::get` with a field-less key and a `u64` value: `Some` of the
/// value the key holds, `None` where it holds none. The source panics where the
/// key holds a value of another type, which `requires` leaves out.
#[verifier::external_body]
pub(crate) fn instance_get_u64(env: &soroban_sdk::Env, name: &str) -> (r: Option<u64>)
    requires
        is_symbol_text(name@),
        contract_running(*env),
        instance_entries(*env).contains_key(StorageKey::Named(name@))
            ==> instance_entries(*env)[StorageKey::Named(name@)] is U64,
    ensures
        r == stored_u64(instance_entries(*env), StorageKey::Named(name@)),
{
    env.storage().instance().get(&(soroban_sdk::Symbol::new(env, name),))
}

/// `Instance::set` with a field-less key and a `u64` value: the instance
/// storage maps the key to the value afterwards, and nothing else changes.
#[verifier::external_body]
pub(crate) fn instance_set_u64(env: &mut soroban_sdk::Env, name: &str, value: u64)
    requires
        is_symbol_text(name@),
        contract_running(*old(env)),
    ensures
        instance_entries(*final(env)) == instance_entries(*old(env)).insert(
            StorageKey::Named(name@),
            StoredValue::U64(value),
        ),
        persistent_entries(*final(env)) == persistent_entries(*old(env)),
        host_context_kept(*old(env), *final(env)),
{
    env.storage().instance().set(&(soroban_sdk::Symbol::new(env, name),), &value);
}

/// `Instance::get` with a field-less key and a `i128` value: `Some` of the
/// value the key holds, `None` where it holds none. The source panics where the
/// key holds a value of another type, which `requires` leaves out.
#[verifier::external_body]
pub(crate) fn instance_get_i128(env: &soroban_sdk::Env, name: &str) -> (r: Option<i128>)
    requires
        is_symbol_text(name@),
        contract_running(*env),
        instance_entries(*env).contains_key(StorageKey::Named(name@))
            ==> instance_entries(*env)[StorageKey::Named(name@)] is I128,
    ensures
        r == stored_i128(instance_entries(*env), StorageKey::Named(name@)),
{
    env.storage().instance().get(&(soroban_sdk::Symbol::new(env, name),))
}

/// `Instance::set` with a field-less key and a `i128` value: the instance
/// storage maps the key to the value afterwards, and nothing else changes.
#[verifier::external_body]
pub(crate) fn instance_set_i128(env: &mut soroban_sdk::Env, name: &str, value: i128)
    requires
        is_symbol_text(name@),
        contract_running(*old(env)),
    ensures
        instance_entries(*final(env)) == instance_entries(*old(env)).insert(
            StorageKey::Named(name@),
            StoredValue::I128(value),
        ),
        persistent_entries(*final(env)) == persistent_entries(*old(env)),
        host_context_kept(*old(env), *final(env)),
{
    env.storage().instance().set(&(soroban_sdk::Symbol::new(env, name),), &value);
}

/// `Instance::get` with a field-less key and a `bool` value: `Some` of the
/// value the key holds, `None` where it holds none. The source panics where the
/// key holds a value of another type, which `requires` leaves out.
#[verifier::external_body]
pub(crate) fn instance_get_bool(env: &soroban_sdk::Env, name: &str) -> (r: Option<bool>)
    requires
        is_symbol_text(name@),
        contract_running(*env),
        instance_entries(*env).contains_key(StorageKey::Named(name@))
            ==> instance_entries(*env)[StorageKey::Named(name@)] is Bool,
    ensures
        r == stored_bool(instance_entries(*env), StorageKey::Named(name@)),
{
    env.storage().instance().get(&(soroban_sdk::Symbol::new(env, name),))
}

/// `Instance::set` with a field-less key and a `bool` value: the instance
/// storage maps the key to the value afterwards, and nothing else changes.
#[verifier::external_body]
pub(crate) fn instance_set_bool(env: &mut soroban_sdk::Env, name: &str, value: bool)
    requires
        is_symbol_text(name@),
        contract_running(*old(env)),
    ensures
        instance_entries(*final(env)) == instance_entries(*old(env)).insert(
            StorageKey::Named(name@),
            StoredValue::Bool(value),
        ),
        persistent_entries(*final(env)) == persistent_entries(*old(env)),
        host_context_kept(*old(env), *final(env)),
{
    env.storage().instance().set(&(soroban_sdk::Symbol::new(env, name),), &value);
}

/// `Persistent::get` with a key indexed by an address and a bool value: `Some`
/// of the value the key holds, `None` where it holds none. The source panics
/// where the key holds a value of another type, and the host aborts a read of
/// a key it does not let this invocation read; `requires` leaves both out.
#[verifier::external_body]
pub(crate) fn persistent_get_bool_by_addr(env: &soroban_sdk::Env, name: &str, address: &soroban_sdk::Address) -> (r: Option<bool>)
    requires
        is_symbol_text(name@),
        contract_running(*env),
        persistent_readable(*env).contains(StorageKey::ByAddress(name@, *address)),
        persistent_entries(*env).contains_key(StorageKey::ByAddress(name@, *address))
            ==> persistent_entries(*env)[StorageKey::ByAddress(name@, *address)] is Bool,
    ensures
        r == stored_bool(persistent_entries(*env), StorageKey::ByAddress(name@, *address)),
{
    env.storage().persistent().get(&(soroban_sdk::Symbol::new(env, name), address.clone()))
}

/// `Persistent::set` with a key indexed by an address and a bool value: the
/// persistent storage maps the key to the value afterwards, and nothing else
/// changes. The host aborts a write of a key it does not let this invocation
/// write, which `requires` leaves out.
#[verifier::external_body]
pub(crate) fn persistent_set_bool_by_addr(env: &mut soroban_sdk::Env, name: &str, address: &soroban_sdk::Address, value: bool)
    requires
        is_symbol_text(name@),
        contract_running(*old(env)),
        persistent_writable(*old(env)).contains(StorageKey::ByAddress(name@, *address)),
    ensures
        persistent_entries(*final(env)) == persistent_entries(*old(env)).insert(
            StorageKey::ByAddress(name@, *address),
            StoredValue::Bool(value),
        ),
        instance_entries(*final(env)) == instance_entries(*old(env)),
        host_context_kept(*old(env), *final(env)),
{
    env.storage().persistent().set(&(soroban_sdk::Symbol::new(env, name), address.clone()), &value);
}

/// `Persistent::has` with a key indexed by an id: whether the persistent
/// storage holds a value under the key. The host aborts a read of a key it does
/// not let this invocation read, which `requires` leaves out.
#[verifier::external_body]
pub(crate) fn persistent_has_by_id(env: &soroban_sdk::Env, name: &str, id: u64) -> (r: bool)
    requires
        is_symbol_text(name@),
        contract_running(*env),
        persistent_readable(*env).contains(StorageKey::ById(name@, id)),
    ensures
        r == persistent_entries(*env).contains_key(StorageKey::ById(name@, id)),
{
    env.storage().persistent().has(&(soroban_sdk::Symbol::new(env, name), id))
}

/// `Persistent::set` with a key indexed by an id and a bool value: the
/// persistent storage maps the key to the value afterwards, and nothing else
/// changes. The host aborts a write of a key it does not let this invocation
/// write, which `requires` leaves out.
#[verifier::external_body]
pub(crate) fn persistent_set_bool_by_id(env: &mut soroban_sdk::Env, name: &str, id: u64, value: bool)
    requires
        is_symbol_text(name@),
        contract_running(*old(env)),
        persistent_writable(*old(env)).contains(StorageKey::ById(name@, id)),
    ensures
        persistent_entries(*final(env)) == persistent_entries(*old(env)).insert(
            StorageKey::ById(name@, id),
            StoredValue::Bool(value),
        ),
        instance_entries(*final(env)) == instance_entries(*old(env)),
        host_context_kept(*old(env), *final(env)),
{
    env.storage().persistent().set(&(soroban_sdk::Symbol::new(env, name), id), &value);
}

/// `Persistent::get` with a key indexed by an address and a u64 value: `Some`
/// of the value the key holds, `None` where it holds none. The source panics
/// where the key holds a value of another type, and the host aborts a read of
/// a key it does not let this invocation read; `requires` leaves both out.
#[verifier::external_body]
pub(crate) fn persistent_get_u64_by_addr(env: &soroban_sdk::Env, name: &str, address: &soroban_sdk::Address) -> (r: Option<u64>)
    requires
        is_symbol_text(name@),
        contract_running(*env),
        persistent_readable(*env).contains(StorageKey::ByAddress(name@, *address)),
        persistent_entries(*env).contains_key(StorageKey::ByAddress(name@, *address))
            ==> persistent_entries(*env)[StorageKey::ByAddress(name@, *address)] is U64,
    ensures
        r == stored_u64(persistent_entries(*env), StorageKey::ByAddress(name@, *address)),
{
    env.storage().persistent().get(&(soroban_sdk::Symbol::new(env, name), address.clone()))
}

/// `Persistent::set` with a key indexed by an address and a u64 value: the
/// persistent storage maps the key to the value afterwards, and nothing else
/// changes. The host aborts a write of a key it does not let this invocation
/// write, which `requires` leaves out.
#[verifier::external_body]
pub(crate) fn persistent_set_u64_by_addr(env: &mut soroban_sdk::Env, name: &str, address: &soroban_sdk::Address, value: u64)
    requires
        is_symbol_text(name@),
        contract_running(*old(env)),
        persistent_writable(*old(env)).contains(StorageKey::ByAddress(name@, *address)),
    ensures
        persistent_entries(*final(env)) == persistent_entries(*old(env)).insert(
            StorageKey::ByAddress(name@, *address),
            StoredValue::U64(value),
        ),
        instance_entries(*final(env)) == instance_entries(*old(env)),
        host_context_kept(*old(env), *final(env)),
{
    env.storage().persistent().set(&(soroban_sdk::Symbol::new(env, name), address.clone()), &value);
}

/// `Persistent::get` with a key indexed by an id and a remittance value: `Some`
/// of the value the key holds, `None` where it holds none. The source panics
/// where the key holds a value of another type, and the host aborts a read of
/// a key it does not let this invocation read; `requires` leaves both out.
#[verifier::external_body]
pub(crate) fn persistent_get_remittance_by_id(env: &soroban_sdk::Env, name: &str, id: u64) -> (r: Option<RemittanceRecord>)
    requires
        is_symbol_text(name@),
        contract_running(*env),
        persistent_readable(*env).contains(StorageKey::ById(name@, id)),
        persistent_entries(*env).contains_key(StorageKey::ById(name@, id))
            ==> persistent_entries(*env)[StorageKey::ById(name@, id)] is Remittance,
    ensures
        r == stored_remittance(persistent_entries(*env), StorageKey::ById(name@, id)),
{
    env.storage().persistent().get(&(soroban_sdk::Symbol::new(env, name), id))
}

/// `Persistent::set` with a key indexed by an id and a remittance value: the
/// persistent storage maps the key to the value afterwards, and nothing else
/// changes. The host aborts a write of a key it does not let this invocation
/// write, which `requires` leaves out.
#[verifier::external_body]
pub(crate) fn persistent_set_remittance_by_id(env: &mut soroban_sdk::Env, name: &str, id: u64, record: RemittanceRecord)
    requires
        is_symbol_text(name@),
        contract_running(*old(env)),
        persistent_writable(*old(env)).contains(StorageKey::ById(name@, id)),
    ensures
        persistent_entries(*final(env)) == persistent_entries(*old(env)).insert(
            StorageKey::ById(name@, id),
            StoredValue::Remittance(record),
        ),
        instance_entries(*final(env)) == instance_entries(*old(env)),
        host_context_kept(*old(env), *final(env)),
{
    env.storage().persistent().set(&(soroban_sdk::Symbol::new(env, name), id), &record);
}

/// `Persistent::get` with a key indexed by two strings and a daily_limit value: `Some`
/// of the value the key holds, `None` where it holds none. The source panics
/// where the key holds a value of another type, and the host aborts a read of
/// a key it does not let this invocation read; `requires` leaves both out.
#[verifier::external_body]
pub(crate) fn persistent_get_daily_limit_by_pair(env: &soroban_sdk::Env, name: &str, first: &soroban_sdk::String, second: &soroban_sdk::String) -> (r: Option<DailyLimitRecord>)
    requires
        is_symbol_text(name@),
        contract_running(*env),
        persistent_readable(*env).contains(StorageKey::ByPair(name@, *first, *second)),
        persistent_entries(*env).contains_key(StorageKey::ByPair(name@, *first, *second))
            ==> persistent_entries(*env)[StorageKey::ByPair(name@, *first, *second)] is DailyLimit,
    ensures
        r == stored_daily_limit(persistent_entries(*env), StorageKey::ByPair(name@, *first, *second)),
{
    env.storage().persistent().get(&(soroban_sdk::Symbol::new(env, name), first.clone(), second.clone()))
}

/// `Persistent::set` with a key indexed by two strings and a daily_limit value: the
/// persistent storage maps the key to the value afterwards, and nothing else
/// changes. The host aborts a write of a key it does not let this invocation
/// write, which `requires` leaves out.
#[verifier::external_body]
pub(crate) fn persistent_set_daily_limit_by_pair(env: &mut soroban_sdk::Env, name: &str, first: &soroban_sdk::String, second: &soroban_sdk::String, limit: i128)
    requires
        is_symbol_text(name@),
        contract_running(*old(env)),
        persistent_writable(*old(env)).contains(StorageKey::ByPair(name@, *first, *second)),
    ensures
        persistent_entries(*final(env)) == persistent_entries(*old(env)).insert(
            StorageKey::ByPair(name@, *first, *second),
            StoredValue::DailyLimit((*first, *second, limit)),
        ),
        instance_entries(*final(env)) == instance_entries(*old(env)),
        host_context_kept(*old(env), *final(env)),
{
    env.storage().persistent().set(&(soroban_sdk::Symbol::new(env, name), first.clone(), second.clone()), &(first.clone(), second.clone(), limit));
}

/// `Persistent::get` with a key indexed by an address and a transfers value: `Some`
/// of the value the key holds, `None` where it holds none. The source panics
/// where the key holds a value of another type, and the host aborts a read of
/// a key it does not let this invocation read; `requires` leaves both out.
#[verifier::external_body]
pub(crate) fn persistent_get_transfers_by_addr(env: &soroban_sdk::Env, name: &str, address: &soroban_sdk::Address) -> (r: Option<soroban_sdk::Vec<TransferEntry>>)
    requires
        is_symbol_text(name@),
        contract_running(*env),
        persistent_readable(*env).contains(StorageKey::ByAddress(name@, *address)),
        persistent_entries(*env).contains_key(StorageKey::ByAddress(name@, *address))
            ==> persistent_entries(*env)[StorageKey::ByAddress(name@, *address)] is Transfers,
    ensures
        r == stored_transfers(persistent_entries(*env), StorageKey::ByAddress(name@, *address)),
{
    env.storage().persistent().get(&(soroban_sdk::Symbol::new(env, name), address.clone()))
}

/// `Persistent::set` with a key indexed by an address and a transfers value: the
/// persistent storage maps the key to the value afterwards, and nothing else
/// changes. The host aborts a write of a key it does not let this invocation
/// write, which `requires` leaves out.
#[verifier::external_body]
pub(crate) fn persistent_set_transfers_by_addr(env: &mut soroban_sdk::Env, name: &str, address: &soroban_sdk::Address, value: &soroban_sdk::Vec<TransferEntry>)
    requires
        is_symbol_text(name@),
        contract_running(*old(env)),
        persistent_writable(*old(env)).contains(StorageKey::ByAddress(name@, *address)),
    ensures
        persistent_entries(*final(env)) == persistent_entries(*old(env)).insert(
            StorageKey::ByAddress(name@, *address),
            StoredValue::Transfers(*value),
        ),
        instance_entries(*final(env)) == instance_entries(*old(env)),
        host_context_kept(*old(env), *final(env)),
{
    env.storage().persistent().set(&(soroban_sdk::Symbol::new(env, name), address.clone()), value);
}

/// What a `soroban_sdk::Vec` of transfer entries holds, in order, each element
/// read as an `(i128, u64)` pair.
pub uninterp spec fn transfer_entries(v: soroban_sdk::Vec<TransferEntry>) -> Seq<TransferEntry>;

/// Whether every element of the vector converts to an `(i128, u64)` pair. The
/// SDK does not check element types when it reads a vector out of storage, so
/// a stored vector may hold elements of another type; `Vec::get` panics on
/// such an element.
pub uninterp spec fn holds_transfer_entries(v: soroban_sdk::Vec<TransferEntry>) -> bool;

/// `Vec::new`: an empty vector.
#[verifier::external_body]
pub(crate) fn transfer_vec_new(env: &soroban_sdk::Env) -> (v: soroban_sdk::Vec<TransferEntry>)
    ensures
        transfer_entries(v) == Seq::<TransferEntry>::empty(),
        holds_transfer_entries(v),
{
    soroban_sdk::Vec::new(env)
}

/// `Vec::push_back`: the entry is appended at the end. The host refuses a
/// vector whose length would leave `u32`, which `requires` leaves out.
#[verifier::external_body]
pub(crate) fn transfer_vec_push_back(v: &mut soroban_sdk::Vec<TransferEntry>, entry: TransferEntry)
    requires
        transfer_entries(*old(v)).len() < u32::MAX,
    ensures
        transfer_entries(*final(v)) == transfer_entries(*old(v)).push(entry),
        holds_transfer_entries(*final(v)) == holds_transfer_entries(*old(v)),
{
    v.push_back(entry);
}

/// `Vec::len`: the number of entries.
#[verifier::external_body]
pub(crate) fn transfer_vec_len(v: &soroban_sdk::Vec<TransferEntry>) -> (r: u32)
    ensures
        r == transfer_entries(*v).len(),
{
    v.len()
}

/// `Vec::get`: the entry at position `i`, `None` past the end. The source
/// panics where the element does not convert to an entry, which `requires`
/// leaves out.
#[verifier::external_body]
pub(crate) fn transfer_vec_get(v: &soroban_sdk::Vec<TransferEntry>, i: u32) -> (r: Option<TransferEntry>)
    requires
        holds_transfer_entries(*v),
    ensures
        i < transfer_entries(*v).len() ==> r == Some(transfer_entries(*v)[i as int]),
        i >= transfer_entries(*v).len() ==> r is None,
{
    v.get(i)
}

/// `Ledger::timestamp`: the close time of the current ledger. It depends on
/// the ledger the call runs in, so nothing is stated of it.
#[verifier::external_body]
pub(crate) fn ledger_timestamp(env: &soroban_sdk::Env) -> u64 {
    env.ledger().timestamp()
}

/// `Address::require_auth`: hands `address` to the host as an address whose
/// authorization this invocation requires. The host aborts the invocation
/// where it would not accept the address's authorization, which `requires`
/// leaves out. Afterwards the address is recorded as required, the host grants
/// no authorization it did not grant before, and storage is untouched. Whether
/// the host would accept the same address again depends on how it authorized
/// (an invoking contract is accepted each time; an authorization entry is used
/// up), so this item does not say.
#[verifier::external_body]
#[allow(unused_variables)]
pub(crate) fn require_auth(env: &mut soroban_sdk::Env, address: &soroban_sdk::Address)
    requires
        contract_running(*old(env)),
        auth_grants(*old(env)).contains(*address),
    ensures
        required_auths(*final(env)) == required_auths(*old(env)).push(*address),
        auth_grants(*final(env)).subset_of(auth_grants(*old(env))),
        contract_running(*final(env)) == contract_running(*old(env)),
        persistent_readable(*final(env)) == persistent_readable(*old(env)),
        persistent_writable(*final(env)) == persistent_writable(*old(env)),
        instance_entries(*final(env)) == instance_entries(*old(env)),
        persistent_entries(*final(env)) == persistent_entries(*old(env)),
{
    address.require_auth();
}

/// `Address::clone`: the clone is the same address.
pub assume_specification[ <soroban_sdk::Address as Clone>::clone ](a: &soroban_sdk::Address) -> (r: soroban_sdk::Address)
    ensures
        r == *a,
;

} // verus!
