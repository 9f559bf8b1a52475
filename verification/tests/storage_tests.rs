use soroban_sdk::testutils::{Address as _, ContractFunctionSet, EnvTestConfig, Ledger as _};
use soroban_sdk::{Address, Env, Symbol, Val};
use swiftremit::errors::ContractError;
use swiftremit::keys::KeyTag;
use swiftremit::storage::{
    check_rate_limit, get_accumulated_fees, get_admin, get_admin_count, get_daily_limit,
    get_last_settlement_time, get_platform_fee_bps, get_rate_limit_cooldown, get_remittance,
    get_remittance_counter, get_usdc_token, get_user_transfers, has_admin, has_settlement_hash,
    is_admin, is_agent_registered, is_paused, is_token_whitelisted, rate_limit_verdict,
    require_admin, set_accumulated_fees, set_admin, set_admin_count, set_admin_role,
    set_agent_registered, set_daily_limit, set_last_settlement_time, set_paused,
    set_platform_fee_bps, set_rate_limit_cooldown, set_remittance, set_remittance_counter,
    set_settlement_hash, set_token_whitelisted, set_usdc_token, set_user_transfers,
};
use swiftremit::types::{DailyLimit, Remittance, RemittanceStatus, TransferRecord};

/// A contract with no functions, whose storage the tests use.
struct Probe;

impl ContractFunctionSet for Probe {
    fn call(&self, _func: &str, _env: Env, _args: &[Val]) -> Option<Val> {
        None
    }
}

fn test_env() -> Env {
    Env::new_with_config(EnvTestConfig { capture_snapshot_at_drop: false })
}

fn setup() -> (Env, Address) {
    let env = test_env();
    let id = env.register(Probe, ());
    (env, id)
}

fn sample_remittance(env: &Env, id: u64, status: RemittanceStatus) -> Remittance {
    Remittance {
        id,
        sender: Address::generate(env),
        agent: Address::generate(env),
        amount: 10_000,
        fee: 250,
        status,
    }
}

#[test]
fn untouched_store_reads_as_defaults() {
    let (env, id) = setup();
    let user = Address::generate(&env);
    let currency = soroban_sdk::String::from_str(&env, "USDC");
    let country = soroban_sdk::String::from_str(&env, "NG");
    env.as_contract(&id, || {
        assert!(!has_admin(&env));
        assert_eq!(get_admin(&env), Err(ContractError::NotInitialized));
        assert_eq!(get_usdc_token(&env), Err(ContractError::NotInitialized));
        assert_eq!(get_platform_fee_bps(&env), Err(ContractError::NotInitialized));
        assert_eq!(get_remittance_counter(&env), Err(ContractError::NotInitialized));
        assert_eq!(get_accumulated_fees(&env), Err(ContractError::NotInitialized));
        assert_eq!(get_rate_limit_cooldown(&env), Err(ContractError::NotInitialized));
        assert_eq!(get_admin_count(&env), 0);
        assert!(!is_paused(&env));
        assert!(!is_agent_registered(&env, &user));
        assert!(!is_admin(&env, &user));
        assert!(!is_token_whitelisted(&env, &user));
        assert!(!has_settlement_hash(&env, 7));
        assert_eq!(get_last_settlement_time(&env, &user), None);
        assert_eq!(get_remittance(&env, 7), Err(ContractError::RemittanceNotFound));
        assert_eq!(get_daily_limit(&env, &currency, &country), None);
        assert_eq!(get_user_transfers(&env, &user), Vec::new());
        assert_eq!(check_rate_limit(&env, &user), Err(ContractError::NotInitialized));
    });
}

#[test]
fn admin_read_after_write() {
    let (env, id) = setup();
    let admin = Address::generate(&env);
    let mut e = env.clone();
    env.as_contract(&id, || {
        set_admin(&mut e, &admin);
        assert!(has_admin(&e));
        assert_eq!(get_admin(&e), Ok(admin.clone()));
    });
}

#[test]
fn admin_is_stored_under_its_variant_symbol() {
    let (env, id) = setup();
    let admin = Address::generate(&env);
    let mut e = env.clone();
    env.as_contract(&id, || {
        set_admin(&mut e, &admin);
        let key = (Symbol::new(&e, "Admin"),);
        let held: Option<Address> = e.storage().instance().get(&key);
        assert_eq!(held, Some(admin.clone()));
        assert!(!e.storage().persistent().has(&key));
    });
}

#[test]
fn configuration_read_after_write() {
    let (env, id) = setup();
    let token = Address::generate(&env);
    let mut e = env.clone();
    env.as_contract(&id, || {
        set_usdc_token(&mut e, &token);
        set_platform_fee_bps(&mut e, 250);
        set_remittance_counter(&mut e, 41);
        set_accumulated_fees(&mut e, -5_000_000_000_000_000_000);
        set_rate_limit_cooldown(&mut e, 3600);
        set_admin_count(&mut e, 3);
        assert_eq!(get_usdc_token(&e), Ok(token.clone()));
        assert_eq!(get_platform_fee_bps(&e), Ok(250));
        assert_eq!(get_remittance_counter(&e), Ok(41));
        assert_eq!(get_accumulated_fees(&e), Ok(-5_000_000_000_000_000_000));
        assert_eq!(get_rate_limit_cooldown(&e), Ok(3600));
        assert_eq!(get_admin_count(&e), 3);
        assert!(!has_admin(&e));
    });
}

#[test]
fn later_write_replaces_earlier_one() {
    let (env, id) = setup();
    let first = Address::generate(&env);
    let second = Address::generate(&env);
    let mut e = env.clone();
    env.as_contract(&id, || {
        set_admin(&mut e, &first);
        set_platform_fee_bps(&mut e, 100);
        set_admin(&mut e, &second);
        set_platform_fee_bps(&mut e, 75);
        assert_eq!(get_admin(&e), Ok(second.clone()));
        assert_eq!(get_platform_fee_bps(&e), Ok(75));
    });
}

#[test]
fn writes_to_distinct_keys_are_independent() {
    let (env, id) = setup();
    let admin = Address::generate(&env);
    let token = Address::generate(&env);
    let mut e = env.clone();
    env.as_contract(&id, || {
        set_admin(&mut e, &admin);
        set_usdc_token(&mut e, &token);
        set_remittance_counter(&mut e, 9);
        set_rate_limit_cooldown(&mut e, 10);
        assert_eq!(get_admin(&e), Ok(admin.clone()));
        assert_eq!(get_usdc_token(&e), Ok(token.clone()));
        assert_eq!(get_remittance_counter(&e), Ok(9));
        assert_eq!(get_rate_limit_cooldown(&e), Ok(10));
    });
}

#[test]
fn paused_flag_round_trip() {
    let (env, id) = setup();
    let mut e = env.clone();
    env.as_contract(&id, || {
        set_paused(&mut e, true);
        assert!(is_paused(&e));
        set_paused(&mut e, false);
        assert!(!is_paused(&e));
    });
}

#[test]
fn per_address_flags_round_trip() {
    let (env, id) = setup();
    let a = Address::generate(&env);
    let b = Address::generate(&env);
    let mut e = env.clone();
    env.as_contract(&id, || {
        set_agent_registered(&mut e, &a, true);
        set_admin_role(&mut e, &a, true);
        set_token_whitelisted(&mut e, &b, true);
        assert!(is_agent_registered(&e, &a));
        assert!(!is_agent_registered(&e, &b));
        assert!(is_admin(&e, &a));
        assert!(!is_admin(&e, &b));
        assert!(is_token_whitelisted(&e, &b));
        assert!(!is_token_whitelisted(&e, &a));
        set_agent_registered(&mut e, &a, false);
        set_admin_role(&mut e, &a, false);
        set_token_whitelisted(&mut e, &b, false);
        assert!(!is_agent_registered(&e, &a));
        assert!(!is_admin(&e, &a));
        assert!(!is_token_whitelisted(&e, &b));
        set_agent_registered(&mut e, &a, true);
        set_paused(&mut e, true);
        set_agent_registered(&mut e, &b, false);
        assert!(is_agent_registered(&e, &a));
    });
}

#[test]
fn same_address_under_different_keys_is_independent() {
    let (env, id) = setup();
    let a = Address::generate(&env);
    let mut e = env.clone();
    env.as_contract(&id, || {
        set_agent_registered(&mut e, &a, true);
        assert!(is_agent_registered(&e, &a));
        assert!(!is_admin(&e, &a));
        assert!(!is_token_whitelisted(&e, &a));
        assert_eq!(get_last_settlement_time(&e, &a), None);
    });
}

#[test]
fn settlement_hash_is_remembered() {
    let (env, id) = setup();
    let mut e = env.clone();
    env.as_contract(&id, || {
        assert!(!has_settlement_hash(&e, 5));
        set_settlement_hash(&mut e, 5);
        assert!(has_settlement_hash(&e, 5));
        assert!(!has_settlement_hash(&e, 6));
        set_settlement_hash(&mut e, 6);
        set_remittance_counter(&mut e, 1);
        assert!(has_settlement_hash(&e, 5));
        assert!(has_settlement_hash(&e, 6));
    });
}

#[test]
fn remittance_round_trip() {
    let (env, id) = setup();
    let pending = sample_remittance(&env, 1, RemittanceStatus::Pending);
    let completed = sample_remittance(&env, 2, RemittanceStatus::Completed);
    let cancelled = sample_remittance(&env, 3, RemittanceStatus::Cancelled);
    let mut e = env.clone();
    env.as_contract(&id, || {
        set_remittance(&mut e, 1, &pending);
        set_remittance(&mut e, 2, &completed);
        set_remittance(&mut e, 3, &cancelled);
        assert_eq!(get_remittance(&e, 1), Ok(sample_copy(&pending)));
        assert_eq!(get_remittance(&e, 2), Ok(sample_copy(&completed)));
        assert_eq!(get_remittance(&e, 3), Ok(sample_copy(&cancelled)));
        assert_eq!(get_remittance(&e, 4), Err(ContractError::RemittanceNotFound));
    });
}

fn sample_copy(r: &Remittance) -> Remittance {
    Remittance {
        id: r.id,
        sender: r.sender.clone(),
        agent: r.agent.clone(),
        amount: r.amount,
        fee: r.fee,
        status: r.status,
    }
}

#[test]
fn remittance_update_replaces_status() {
    let (env, id) = setup();
    let pending = sample_remittance(&env, 8, RemittanceStatus::Pending);
    let mut completed = sample_copy(&pending);
    completed.status = RemittanceStatus::Completed;
    let mut e = env.clone();
    env.as_contract(&id, || {
        set_remittance(&mut e, 8, &pending);
        set_remittance(&mut e, 8, &completed);
        assert_eq!(get_remittance(&e, 8).map(|r| r.status), Ok(RemittanceStatus::Completed));
    });
}

#[test]
fn last_settlement_time_round_trip() {
    let (env, id) = setup();
    let sender = Address::generate(&env);
    let mut e = env.clone();
    env.as_contract(&id, || {
        set_last_settlement_time(&mut e, &sender, 1_700_000_000);
        assert_eq!(get_last_settlement_time(&e, &sender), Some(1_700_000_000));
    });
}

#[test]
fn daily_limit_round_trip() {
    let (env, id) = setup();
    let usd = soroban_sdk::String::from_str(&env, "USD");
    let ng = soroban_sdk::String::from_str(&env, "NG");
    let ke = soroban_sdk::String::from_str(&env, "KE");
    let mut e = env.clone();
    env.as_contract(&id, || {
        set_daily_limit(&mut e, &usd, &ng, 1_000_000);
        assert_eq!(
            get_daily_limit(&e, &usd, &ng),
            Some(DailyLimit { currency: usd.clone(), country: ng.clone(), limit: 1_000_000 })
        );
        assert_eq!(get_daily_limit(&e, &usd, &ke), None);
        assert_eq!(get_daily_limit(&e, &ng, &usd), None);
        set_daily_limit(&mut e, &usd, &ng, 500);
        assert_eq!(
            get_daily_limit(&e, &usd, &ng),
            Some(DailyLimit { currency: usd.clone(), country: ng.clone(), limit: 500 })
        );
        assert_eq!(get_daily_limit(&e, &ng, &usd), None);
    });
}

#[test]
fn user_transfers_round_trip() {
    let (env, id) = setup();
    let user = Address::generate(&env);
    let other = Address::generate(&env);
    let records = vec![
        TransferRecord { amount: 500, timestamp: 10 },
        TransferRecord { amount: -3, timestamp: 20 },
        TransferRecord { amount: i128::MAX, timestamp: u64::MAX },
    ];
    let mut e = env.clone();
    env.as_contract(&id, || {
        set_user_transfers(&mut e, &user, &records);
        assert_eq!(get_user_transfers(&e, &user), records);
        assert_eq!(get_user_transfers(&e, &other), Vec::new());
        set_user_transfers(&mut e, &user, &Vec::new());
        assert_eq!(get_user_transfers(&e, &user), Vec::new());
    });
}

#[test]
fn rate_limit_disabled_by_zero_cooldown() {
    let (env, id) = setup();
    let sender = Address::generate(&env);
    env.ledger().set_timestamp(1000);
    let mut e = env.clone();
    env.as_contract(&id, || {
        set_rate_limit_cooldown(&mut e, 0);
        set_last_settlement_time(&mut e, &sender, 1000);
        assert_eq!(check_rate_limit(&e, &sender), Ok(()));
    });
}

#[test]
fn rate_limit_first_settlement_passes() {
    let (env, id) = setup();
    let sender = Address::generate(&env);
    let mut e = env.clone();
    env.as_contract(&id, || {
        set_rate_limit_cooldown(&mut e, 60);
        assert_eq!(check_rate_limit(&e, &sender), Ok(()));
    });
}

#[test]
fn rate_limit_within_and_after_cooldown() {
    let (env, id) = setup();
    let sender = Address::generate(&env);
    let mut e = env.clone();
    env.as_contract(&id, || {
        set_rate_limit_cooldown(&mut e, 100);
        set_last_settlement_time(&mut e, &sender, 1000);
    });
    env.ledger().set_timestamp(1050);
    env.as_contract(&id, || {
        assert_eq!(check_rate_limit(&env, &sender), Err(ContractError::RateLimitExceeded));
    });
    env.ledger().set_timestamp(1099);
    env.as_contract(&id, || {
        assert_eq!(check_rate_limit(&env, &sender), Err(ContractError::RateLimitExceeded));
    });
    env.ledger().set_timestamp(1100);
    env.as_contract(&id, || {
        assert_eq!(check_rate_limit(&env, &sender), Ok(()));
    });
    env.ledger().set_timestamp(5000);
    env.as_contract(&id, || {
        assert_eq!(check_rate_limit(&env, &sender), Ok(()));
    });
}

#[test]
fn rate_limit_last_settlement_in_future_counts_as_no_time_elapsed() {
    let (env, id) = setup();
    let sender = Address::generate(&env);
    env.ledger().set_timestamp(500);
    let mut e = env.clone();
    env.as_contract(&id, || {
        set_rate_limit_cooldown(&mut e, 1);
        set_last_settlement_time(&mut e, &sender, 900);
        assert_eq!(check_rate_limit(&e, &sender), Err(ContractError::RateLimitExceeded));
    });
}

#[test]
fn rate_limit_verdict_values() {
    assert_eq!(rate_limit_verdict(0, Some(10), 0), Ok(()));
    assert_eq!(rate_limit_verdict(30, None, 0), Ok(()));
    assert_eq!(rate_limit_verdict(30, Some(100), 129), Err(ContractError::RateLimitExceeded));
    assert_eq!(rate_limit_verdict(30, Some(100), 130), Ok(()));
    assert_eq!(rate_limit_verdict(30, Some(200), 100), Err(ContractError::RateLimitExceeded));
    assert_eq!(rate_limit_verdict(u64::MAX, Some(0), u64::MAX), Ok(()));
    assert_eq!(rate_limit_verdict(u64::MAX, Some(1), u64::MAX), Err(ContractError::RateLimitExceeded));
}

#[test]
fn require_admin_checks_role() {
    let (env, id) = setup();
    env.mock_all_auths();
    let admin = Address::generate(&env);
    let stranger = Address::generate(&env);
    let mut e = env.clone();
    env.as_contract(&id, || {
        set_admin_role(&mut e, &admin, true);
    });
    env.as_contract(&id, || {
        assert_eq!(require_admin(&mut e, &admin), Ok(()));
    });
    env.as_contract(&id, || {
        assert_eq!(require_admin(&mut e, &stranger), Err(ContractError::Unauthorized));
    });
    env.as_contract(&id, || {
        set_admin_role(&mut e, &admin, false);
    });
    env.as_contract(&id, || {
        assert_eq!(require_admin(&mut e, &admin), Err(ContractError::Unauthorized));
    });
}

#[test]
fn error_codes() {
    assert_eq!(ContractError::NotInitialized.code(), 2);
    assert_eq!(ContractError::RemittanceNotFound.code(), 6);
    assert_eq!(ContractError::DuplicateSettlement.code(), 12);
    assert_eq!(ContractError::ContractPaused.code(), 13);
    assert_eq!(ContractError::RateLimitExceeded.code(), 14);
    assert_eq!(ContractError::Unauthorized.code(), 24);
    assert_eq!(ContractError::AdminAlreadyExists.code(), 15);
    assert_eq!(ContractError::AdminNotFound.code(), 16);
    assert_eq!(ContractError::CannotRemoveLastAdmin.code(), 17);
    assert_eq!(ContractError::TokenNotWhitelisted.code(), 18);
    assert_eq!(ContractError::TokenAlreadyWhitelisted.code(), 19);
    assert_eq!(ContractError::InvalidMigrationHash.code(), 20);
    assert_eq!(ContractError::MigrationInProgress.code(), 21);
    assert_eq!(ContractError::InvalidMigrationBatch.code(), 22);
    assert_eq!(ContractError::DailySendLimitExceeded.code(), 23);
}

#[test]
fn settlement_mark_survives_later_calls() {
    let (env, id) = setup();
    let a = Address::generate(&env);
    let usd = soroban_sdk::String::from_str(&env, "USD");
    let ng = soroban_sdk::String::from_str(&env, "NG");
    let rem = sample_remittance(&env, 3, RemittanceStatus::Pending);
    let mut e = env.clone();
    env.as_contract(&id, || {
        set_settlement_hash(&mut e, 3);
        set_remittance(&mut e, 3, &rem);
        set_agent_registered(&mut e, &a, false);
        set_admin_role(&mut e, &a, true);
        set_token_whitelisted(&mut e, &a, true);
        set_last_settlement_time(&mut e, &a, 99);
        set_daily_limit(&mut e, &usd, &ng, 5);
        set_user_transfers(&mut e, &a, &vec![TransferRecord { amount: 1, timestamp: 2 }]);
        set_paused(&mut e, true);
        set_admin(&mut e, &a);
        set_settlement_hash(&mut e, 4);
        assert!(has_settlement_hash(&e, 3));
        assert!(has_settlement_hash(&e, 4));
        assert!(!has_settlement_hash(&e, 5));
    });
}

#[test]
fn remittance_status_codes() {
    assert_eq!(RemittanceStatus::Pending.code(), 0);
    assert_eq!(RemittanceStatus::Completed.code(), 1);
    assert_eq!(RemittanceStatus::Cancelled.code(), 2);
    assert_eq!(RemittanceStatus::from_code(0), Some(RemittanceStatus::Pending));
    assert_eq!(RemittanceStatus::from_code(1), Some(RemittanceStatus::Completed));
    assert_eq!(RemittanceStatus::from_code(2), Some(RemittanceStatus::Cancelled));
    assert_eq!(RemittanceStatus::from_code(3), None);
    assert_eq!(RemittanceStatus::from_code(u32::MAX), None);
}

#[test]
fn remittance_record_round_trip() {
    let env = test_env();
    let r = sample_remittance(&env, 77, RemittanceStatus::Cancelled);
    let record = r.to_record();
    assert_eq!(record.0, 77);
    assert_eq!(record.5, 2);
    assert_eq!(Remittance::from_record(record), Some(sample_copy(&r)));
    let bad = (1u64, r.sender.clone(), r.agent.clone(), 1i128, 0i128, 9u32);
    assert_eq!(Remittance::from_record(bad), None);
}

#[test]
fn key_symbols_are_variant_names() {
    assert_eq!(KeyTag::Admin.symbol_text(), "Admin");
    assert_eq!(KeyTag::AdminRole.symbol_text(), "AdminRole");
    assert_eq!(KeyTag::LastSettlementTime.symbol_text(), "LastSettlementTime");
    assert_eq!(KeyTag::TokenWhitelisted.symbol_text(), "TokenWhitelisted");
}
