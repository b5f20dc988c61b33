use fee_contracts::fee::{
    burn_fee, calculate_fee, calculate_fee_with_priority, validate_windows, FeeConfig, FeeError,
    FeeEvent, FeeLogKind, FeeOperationStatus, FeeWindow,
};
use fee_contracts::fee_contract::{calculate_fee_for_asset_with_priority, FeeContract};
use fee_contracts::fee::AssetFeeConfig;
use fee_contracts::priority::{PriorityFeeConfig, PriorityLevel};

const ADMIN: u64 = 1;
const PAYER: u64 = 2;
const ASSET: u64 = 7;

fn initialized(rate: u32) -> FeeContract {
    let mut contract = FeeContract::new();
    contract.initialize(ADMIN, rate).unwrap();
    contract
}

#[test]
fn test_calculate_fee_with_priority() {
    let now = 0;
    let priority_config = PriorityFeeConfig::default();

    let config = FeeConfig {
        default_fee_rate: 500, // 5%
        windows: Vec::new(),
        priority_config,
    };

    let amount = 10_000i128;

    // Low: 5% * 0.8 = 4% => 10000 * 0.04 = 400
    let low_fee = calculate_fee_with_priority(now, amount, &config, PriorityLevel::Low);
    assert_eq!(low_fee, 400);

    // Medium: 5% * 1.0 = 5% => 10000 * 0.05 = 500
    let medium_fee = calculate_fee_with_priority(now, amount, &config, PriorityLevel::Medium);
    assert_eq!(medium_fee, 500);

    // High: 5% * 1.5 = 7.5% => 10000 * 0.075 = 750
    let high_fee = calculate_fee_with_priority(now, amount, &config, PriorityLevel::High);
    assert_eq!(high_fee, 750);

    // Urgent: 5% * 2.0 = 10% => 10000 * 0.10 = 1000
    let urgent_fee = calculate_fee_with_priority(now, amount, &config, PriorityLevel::Urgent);
    assert_eq!(urgent_fee, 1000);
}

#[test]
fn test_priority_fees_scale_correctly() {
    let now = 0;
    let priority_config = PriorityFeeConfig::default();

    let config = FeeConfig {
        default_fee_rate: 1000, // 10%
        windows: Vec::new(),
        priority_config,
    };

    // Test that higher priority always results in higher fees
    let amount = 100_000i128;

    let low_fee = calculate_fee_with_priority(now, amount, &config, PriorityLevel::Low);
    let medium_fee = calculate_fee_with_priority(now, amount, &config, PriorityLevel::Medium);
    let high_fee = calculate_fee_with_priority(now, amount, &config, PriorityLevel::High);
    let urgent_fee = calculate_fee_with_priority(now, amount, &config, PriorityLevel::Urgent);

    // Verify ascending order
    assert!(low_fee < medium_fee);
    assert!(medium_fee < high_fee);
    assert!(high_fee < urgent_fee);

    // Verify specific values
    assert_eq!(low_fee, 8_000); // 10% * 0.8 = 8%
    assert_eq!(medium_fee, 10_000); // 10% * 1.0 = 10%
    assert_eq!(high_fee, 15_000); // 10% * 1.5 = 15%
    assert_eq!(urgent_fee, 20_000); // 10% * 2.0 = 20%
}

#[test]
fn test_contract_initialization() {
    let mut contract = FeeContract::new();

    // Initialize with 5% fee rate
    contract.initialize(ADMIN, 500).unwrap();

    let config = contract.get_fee_config().unwrap();
    assert_eq!(config.default_fee_rate, 500);

    let priority_config = contract.get_priority_config();
    assert_eq!(priority_config.low_multiplier_bps, 8000);
    assert_eq!(priority_config.medium_multiplier_bps, 10000);
    assert_eq!(priority_config.high_multiplier_bps, 15000);
    assert_eq!(priority_config.urgent_multiplier_bps, 20000);
}

#[test]
fn test_set_priority_multipliers() {
    let mut contract = initialized(500);

    // Set custom priority multipliers
    contract
        .set_priority_multipliers(0, ADMIN, 5000, 10000, 20000, 30000)
        .unwrap();

    let config = contract.get_priority_config();
    assert_eq!(config.low_multiplier_bps, 5000);
    assert_eq!(config.medium_multiplier_bps, 10000);
    assert_eq!(config.high_multiplier_bps, 20000);
    assert_eq!(config.urgent_multiplier_bps, 30000);
}

#[test]
#[should_panic(expected = "InvalidPriorityConfig")]
fn test_set_invalid_priority_multipliers_panics() {
    let mut contract = initialized(500);

    // Try to set invalid multipliers (descending order)
    contract
        .set_priority_multipliers(0, ADMIN, 30000, 20000, 10000, 5000)
        .unwrap();
}

#[test]
fn test_get_priority_multiplier() {
    let contract = initialized(500);

    assert_eq!(contract.get_priority_multiplier(PriorityLevel::Low), 8000);
    assert_eq!(contract.get_priority_multiplier(PriorityLevel::Medium), 10000);
    assert_eq!(contract.get_priority_multiplier(PriorityLevel::High), 15000);
    assert_eq!(contract.get_priority_multiplier(PriorityLevel::Urgent), 20000);
}

#[test]
fn test_calculate_fee_with_priority_contract() {
    let contract = initialized(1000); // 10% base rate

    let amount = 10_000i128;

    // Low: 10% * 0.8 = 8% => 800
    let low_fee = contract.calculate_fee_with_priority(0, amount, PriorityLevel::Low);
    assert_eq!(low_fee, Ok(800));

    // Medium: 10% * 1.0 = 10% => 1000
    let medium_fee = contract.calculate_fee_with_priority(0, amount, PriorityLevel::Medium);
    assert_eq!(medium_fee, Ok(1000));

    // High: 10% * 1.5 = 15% => 1500
    let high_fee = contract.calculate_fee_with_priority(0, amount, PriorityLevel::High);
    assert_eq!(high_fee, Ok(1500));

    // Urgent: 10% * 2.0 = 20% => 2000
    let urgent_fee = contract.calculate_fee_with_priority(0, amount, PriorityLevel::Urgent);
    assert_eq!(urgent_fee, Ok(2000));
}

#[test]
fn test_deduct_fee_with_priority() {
    let mut contract = initialized(1000); // 10% base rate

    let amount = 10_000i128;

    // Deduct with High priority (15% fee)
    let (net, fee) = contract
        .deduct_fee_with_priority(0, PAYER, amount, PriorityLevel::High)
        .unwrap();

    assert_eq!(fee, 1500);
    assert_eq!(net, 8500);
    assert_eq!(contract.get_total_collected(), 1500);
    assert_eq!(contract.get_user_fees_accrued(PAYER), 1500);
}

#[test]
fn test_priority_fee_with_bounds() {
    let mut contract = initialized(1000);

    // Set fee bounds
    contract.set_fee_bounds(ADMIN, 500, 2000).unwrap();

    // Low priority would calculate to 400 (below min)
    // Should be clamped to min 500
    let low_fee = contract.calculate_fee_with_priority(0, 5000, PriorityLevel::Low);
    assert_eq!(low_fee, Ok(500));

    // Urgent priority would calculate to 4000 (above max)
    // Should be clamped to max 2000
    let urgent_fee = contract.calculate_fee_with_priority(0, 20000, PriorityLevel::Urgent);
    assert_eq!(urgent_fee, Ok(2000));
}

#[test]
fn test_priority_fee_events() {
    let mut contract = initialized(1000);

    // Set priority multipliers
    contract
        .set_priority_multipliers(0, ADMIN, 5000, 10000, 15000, 20000)
        .unwrap();

    // Check event was emitted
    assert!(contract
        .events
        .iter()
        .any(|e| matches!(e, FeeEvent::PriorityConfigUpdated { .. })));
}

#[test]
fn test_zero_amount_fee() {
    let priority_config = PriorityFeeConfig::default();

    let config = FeeConfig {
        default_fee_rate: 1000,
        windows: Vec::new(),
        priority_config,
    };

    // Zero amount should return 0 fee
    let fee = calculate_fee_with_priority(0, 0, &config, PriorityLevel::Urgent);
    assert_eq!(fee, 0);

    // Negative amount should return 0 fee
    let fee = calculate_fee_with_priority(0, -1000, &config, PriorityLevel::Urgent);
    assert_eq!(fee, 0);
}

#[test]
fn test_large_amount_with_priority() {
    let priority_config = PriorityFeeConfig::default();

    let config = FeeConfig {
        default_fee_rate: 100, // 1%
        windows: Vec::new(),
        priority_config,
    };

    let large_amount = 1_000_000_000_000i128;

    // Urgent: 1% * 2.0 = 2% => 20_000_000_000
    let fee = calculate_fee_with_priority(0, large_amount, &config, PriorityLevel::Urgent);
    assert_eq!(fee, 20_000_000_000);
}

#[test]
fn test_custom_priority_multipliers() {
    let mut contract = initialized(1000);

    // Set custom multipliers with larger spread
    contract
        .set_priority_multipliers(0, ADMIN, 2500, 10000, 25000, 50000)
        .unwrap();

    let amount = 10_000i128;

    // Low: 10% * 0.25 = 2.5% => 250
    let low_fee = contract.calculate_fee_with_priority(0, amount, PriorityLevel::Low);
    assert_eq!(low_fee, Ok(250));

    // Urgent: 10% * 5.0 = 50% => 5000
    let urgent_fee = contract.calculate_fee_with_priority(0, amount, PriorityLevel::Urgent);
    assert_eq!(urgent_fee, Ok(5000));
}

#[test]
fn test_multiple_priority_transactions() {
    let mut contract = initialized(1000);

    // Execute transactions with different priorities
    let (_, low_fee) = contract
        .deduct_fee_with_priority(0, PAYER, 10_000, PriorityLevel::Low)
        .unwrap();
    assert_eq!(low_fee, 800);

    let (_, medium_fee) = contract
        .deduct_fee_with_priority(0, PAYER, 10_000, PriorityLevel::Medium)
        .unwrap();
    assert_eq!(medium_fee, 1000);

    let (_, high_fee) = contract
        .deduct_fee_with_priority(0, PAYER, 10_000, PriorityLevel::High)
        .unwrap();
    assert_eq!(high_fee, 1500);

    let (_, urgent_fee) = contract
        .deduct_fee_with_priority(0, PAYER, 10_000, PriorityLevel::Urgent)
        .unwrap();
    assert_eq!(urgent_fee, 2000);

    // Total collected should be sum of all fees
    assert_eq!(contract.get_total_collected(), 5300);

    // User fees accrued should match
    assert_eq!(contract.get_user_fees_accrued(PAYER), 5300);
}

// ---------------------------------------------------------------------------
// Time windows
// ---------------------------------------------------------------------------

#[test]
fn window_rate_applies_inside_window_only() {
    let config = FeeConfig {
        default_fee_rate: 100,
        windows: vec![
            FeeWindow { start: 10, end: 20, fee_rate: 300 },
            FeeWindow { start: 15, end: 30, fee_rate: 900 },
        ],
        priority_config: PriorityFeeConfig::default(),
    };
    assert_eq!(config.rate_at(5), 100);
    assert_eq!(config.rate_at(10), 300);
    assert_eq!(config.rate_at(18), 300); // the first window that contains the time decides
    assert_eq!(config.rate_at(20), 300);
    assert_eq!(config.rate_at(25), 900);
    assert_eq!(config.rate_at(31), 100);
    // 10_000 * 3% at Medium = 300; at time 5 the default 1% = 100.
    assert_eq!(calculate_fee(12, 10_000, &config), 300);
    assert_eq!(calculate_fee(5, 10_000, &config), 100);
}

#[test]
fn validate_windows_rejects_empty_or_reversed_windows() {
    assert!(validate_windows(&vec![]));
    assert!(validate_windows(&vec![FeeWindow { start: 1, end: 2, fee_rate: 5 }]));
    assert!(!validate_windows(&vec![FeeWindow { start: 2, end: 2, fee_rate: 5 }]));
    assert!(!validate_windows(&vec![
        FeeWindow { start: 1, end: 2, fee_rate: 5 },
        FeeWindow { start: 9, end: 3, fee_rate: 5 },
    ]));
}

#[test]
fn set_fee_config_checks_rate_and_windows() {
    let mut contract = initialized(1000);
    assert_eq!(
        contract.set_fee_config(0, ADMIN, 10_001, vec![]),
        Err(FeeError::InvalidPercentage)
    );
    assert_eq!(
        contract.set_fee_config(0, ADMIN, 200, vec![FeeWindow { start: 5, end: 1, fee_rate: 1 }]),
        Err(FeeError::InvalidFeeWindow)
    );
    assert_eq!(contract.set_fee_config(0, PAYER, 200, vec![]), Err(FeeError::Unauthorized));
    contract
        .set_fee_config(7, ADMIN, 200, vec![FeeWindow { start: 100, end: 200, fee_rate: 50 }])
        .unwrap();
    assert_eq!(contract.get_fee_config().unwrap().default_fee_rate, 200);
    assert_eq!(
        contract.events.last(),
        Some(&FeeEvent::ConfigUpdated { admin: ADMIN, fee_rate: 200, timestamp: 7 })
    );
    assert_eq!(contract.simulate_fee(150, 10_000, PAYER), Ok(50));
    assert_eq!(contract.simulate_fee(99, 10_000, PAYER), Ok(200));
}

// ---------------------------------------------------------------------------
// Initialization and administration
// ---------------------------------------------------------------------------

#[test]
fn initialize_refuses_twice_and_bad_rate() {
    let mut contract = FeeContract::new();
    assert_eq!(contract.initialize(ADMIN, 10_001), Err(FeeError::InvalidPercentage));
    contract.initialize(ADMIN, 10_000).unwrap();
    assert_eq!(contract.initialize(ADMIN, 100), Err(FeeError::AlreadyInitialized));
}

#[test]
fn admin_operations_refuse_before_init_and_strangers() {
    let mut contract = FeeContract::new();
    assert_eq!(contract.set_fee_bounds(ADMIN, 0, 1), Err(FeeError::NotInitialized));
    assert_eq!(contract.get_fee_config().map(|c| c.default_fee_rate), Err(FeeError::NotInitialized));
    assert_eq!(
        contract.calculate_fee_with_priority(0, 10, PriorityLevel::Low),
        Err(FeeError::NotInitialized)
    );
    contract.initialize(ADMIN, 100).unwrap();
    assert_eq!(contract.set_fee_bounds(PAYER, 0, 1), Err(FeeError::Unauthorized));
    assert_eq!(contract.set_fee_bounds(ADMIN, -1, 1), Err(FeeError::InvalidFeeBound));
    assert_eq!(contract.set_fee_bounds(ADMIN, 5, 1), Err(FeeError::InvalidFeeBoundRange));
    assert_eq!(
        contract.set_priority_multipliers(0, PAYER, 1, 2, 3, 4),
        Err(FeeError::Unauthorized)
    );
}

// ---------------------------------------------------------------------------
// Deductions with fallback
// ---------------------------------------------------------------------------

#[test]
fn deduct_with_fallback_primary_path() {
    let mut contract = initialized(1000);
    let result = contract
        .deduct_fee_with_fallback(42, PAYER, 10_000, PriorityLevel::High)
        .unwrap();
    assert_eq!(result.fee_charged, 1500);
    assert_eq!(result.net_amount, 8500);
    assert_eq!(result.status, FeeOperationStatus::Success);
    assert_eq!(contract.get_total_collected(), 1500);
    assert_eq!(contract.get_user_fees_accrued(PAYER), 1500);
    assert_eq!(
        contract.events.last(),
        Some(&FeeEvent::FeeDeducted { payer: PAYER, amount: 10_000, fee: 1500, priority: 2, timestamp: 42 })
    );
}

#[test]
fn deduct_with_fallback_caps_fee_at_amount() {
    let mut contract = initialized(1000);
    // The lower bound of 500 exceeds an amount of 100: the fallback charges
    // the minimum capped at the amount.
    contract.set_fee_bounds(ADMIN, 500, 2000).unwrap();
    let result = contract
        .deduct_fee_with_fallback(3, PAYER, 100, PriorityLevel::Low)
        .unwrap();
    assert_eq!(result.status, FeeOperationStatus::FallbackUsed);
    assert_eq!(result.fee_charged, 100);
    assert_eq!(result.net_amount, 0);
    assert_eq!(
        contract.events.last(),
        Some(&FeeEvent::FeeFallbackTriggered { payer: PAYER, amount: 100, fallback_fee: 100, reason: 1, timestamp: 3 })
    );
}

#[test]
fn deduct_with_fallback_errors() {
    let mut contract = FeeContract::new();
    assert_eq!(
        contract.deduct_fee_with_fallback(0, PAYER, 10, PriorityLevel::Low),
        Err(FeeError::NotInitialized)
    );
    contract.initialize(ADMIN, 1000).unwrap();
    assert_eq!(
        contract.deduct_fee_with_fallback(0, PAYER, 0, PriorityLevel::Low),
        Err(FeeError::InvalidAmount)
    );
    assert_eq!(contract.get_total_collected(), 0);
}

#[test]
fn deduct_asset_fee_uses_asset_settings() {
    let mut contract = initialized(1000);
    contract
        .set_asset_fee_config(9, ADMIN, AssetFeeConfig { asset: ASSET, fee_rate: 200, min_fee: 0, max_fee: 0 })
        .unwrap();
    let result = contract
        .deduct_asset_fee_with_fallback(9, PAYER, ASSET, 10_000, PriorityLevel::Medium)
        .unwrap();
    assert_eq!(result.fee_charged, 200);
    assert_eq!(result.net_amount, 9800);
    assert_eq!(result.status, FeeOperationStatus::Success);
    assert_eq!(contract.get_asset_fees_collected(ASSET), 200);
    assert_eq!(contract.get_user_asset_fees_accrued(PAYER, ASSET), 200);
    assert_eq!(contract.get_user_asset_fees_accrued(ASSET, PAYER), 0);
    assert_eq!(contract.get_total_collected(), 200);
    assert_eq!(contract.get_user_fees_accrued(PAYER), 0);
}

#[test]
fn deduct_asset_fee_falls_back_without_settings() {
    let mut contract = initialized(1000);
    let result = contract
        .deduct_asset_fee_with_fallback(1, PAYER, ASSET, 10_000, PriorityLevel::Medium)
        .unwrap();
    assert_eq!(result.fee_charged, 1000);
    assert_eq!(result.status, FeeOperationStatus::FallbackUsed);
    assert_eq!(
        contract.events.last(),
        Some(&FeeEvent::FeeFallbackTriggered { payer: PAYER, amount: 10_000, fallback_fee: 1000, reason: 3, timestamp: 1 })
    );
}

#[test]
fn deduct_asset_fee_falls_back_when_asset_fee_too_large() {
    let mut contract = initialized(1000);
    contract
        .set_asset_fee_config(0, ADMIN, AssetFeeConfig { asset: ASSET, fee_rate: 100, min_fee: 500, max_fee: 0 })
        .unwrap();
    // 1% of 200 is 2, raised to the minimum 500 > 200: the default 10% applies.
    let result = contract
        .deduct_asset_fee_with_fallback(0, PAYER, ASSET, 200, PriorityLevel::Medium)
        .unwrap();
    assert_eq!(result.fee_charged, 20);
    assert_eq!(result.status, FeeOperationStatus::FallbackUsed);
    assert!(matches!(
        contract.events.last(),
        Some(FeeEvent::FeeFallbackTriggered { reason: 2, .. })
    ));
}

#[test]
fn asset_fee_respects_min_and_max() {
    let cfg = AssetFeeConfig { asset: ASSET, fee_rate: 100, min_fee: 50, max_fee: 80 };
    let pc = PriorityFeeConfig::default();
    // 1% of 1000 = 10, raised to 50.
    assert_eq!(calculate_fee_for_asset_with_priority(1000, &cfg, &pc, PriorityLevel::Medium), 50);
    // 1% of 100_000 = 1000, capped at 80.
    assert_eq!(calculate_fee_for_asset_with_priority(100_000, &cfg, &pc, PriorityLevel::Medium), 80);
    // 1% of 6000 = 60, inside the bounds.
    assert_eq!(calculate_fee_for_asset_with_priority(6000, &cfg, &pc, PriorityLevel::Medium), 60);
}

#[test]
fn asset_settings_validation_and_lookup() {
    let mut contract = initialized(1000);
    assert_eq!(contract.get_asset_fee_config(ASSET), Err(FeeError::AssetNotConfigured));
    assert_eq!(
        contract.set_asset_fee_config(0, ADMIN, AssetFeeConfig { asset: ASSET, fee_rate: 10_001, min_fee: 0, max_fee: 0 }),
        Err(FeeError::InvalidPercentage)
    );
    assert_eq!(
        contract.set_asset_fee_config(0, ADMIN, AssetFeeConfig { asset: ASSET, fee_rate: 1, min_fee: -1, max_fee: 0 }),
        Err(FeeError::InvalidFeeBound)
    );
    assert_eq!(
        contract.set_asset_fee_config(0, ADMIN, AssetFeeConfig { asset: ASSET, fee_rate: 1, min_fee: 9, max_fee: 3 }),
        Err(FeeError::InvalidFeeBoundRange)
    );
    let cfg = AssetFeeConfig { asset: ASSET, fee_rate: 1, min_fee: 9, max_fee: 0 };
    contract.set_asset_fee_config(0, ADMIN, cfg).unwrap();
    assert_eq!(contract.get_asset_fee_config(ASSET), Ok(cfg));
}

#[test]
fn fee_checks_report_overflow_beforehand() {
    let contract = initialized(1000);
    assert!(contract.deduct_fee_fits(0, 10_000, PriorityLevel::Urgent));
    assert!(!contract.deduct_fee_fits(0, i128::MAX, PriorityLevel::Urgent));
    assert!(contract.deduct_fee_fits(0, -5, PriorityLevel::Urgent));
    assert!(!contract.deduct_asset_fee_fits(ASSET, 0, i128::MAX, PriorityLevel::Urgent));
    assert!(!contract.quote_fits_check(0, i128::MAX, PriorityLevel::Low));
}

// ---------------------------------------------------------------------------
// History and metrics
// ---------------------------------------------------------------------------

#[test]
fn fee_history_records_charges_and_refunds() {
    let mut contract = initialized(1000);
    assert_eq!(contract.get_fee(0, 10_000), Ok(1000));
    assert_eq!(contract.charge_fee(0, PAYER, 5_000), Ok(500));
    let refund = contract.record_fee_refund(PAYER, 5_000, 200);
    assert_eq!(refund.id, 2);
    assert_eq!(refund.kind, FeeLogKind::Refund);
    assert_eq!(contract.get_fee_log_count(), 3);
    let first = contract.get_fee_log(0).unwrap();
    assert_eq!(first.payer, None);
    assert_eq!(first.fee, 1000);
    assert_eq!(contract.get_fee_log(1).unwrap().payer, Some(PAYER));
    assert_eq!(contract.get_fee_log(3), None);
    let logs = contract.get_fee_logs(1, 10);
    assert_eq!(logs.len(), 2);
    assert_eq!(logs[0].id, 1);
    assert_eq!(logs[1].id, 2);
    assert!(contract.get_fee_logs(2, 1).is_empty());
    // Quotes change nothing.
    assert_eq!(contract.get_total_collected(), 0);
}

#[test]
fn metrics_report_totals_and_rate() {
    let blank = FeeContract::new();
    let m = blank.get_metrics(5, 6);
    assert_eq!(m.default_fee_rate_bps, 0);
    assert_eq!(m.total_fees_collected, 0);
    let mut contract = initialized(250);
    contract
        .deduct_fee_with_fallback(0, PAYER, 10_000, PriorityLevel::Medium)
        .unwrap();
    let m = contract.get_metrics(77, 88);
    assert_eq!(m.default_fee_rate_bps, 250);
    assert_eq!(m.total_fees_collected, 250);
    assert_eq!(m.ledger_timestamp, 77);
    assert_eq!(m.ledger_sequence, 88);
}

#[test]
fn burn_returns_amount() {
    let (burned, event) = burn_fee(321);
    assert_eq!(burned, 321);
    assert_eq!(event, FeeEvent::FeeBurned { amount: 321 });
}

#[test]
fn fee_errors_convert_to_host_contract_errors() {
    let e: soroban_sdk::Error = FeeError::InvalidPriorityConfig.into();
    assert_eq!(e, soroban_sdk::Error::from_contract_error(8));
    assert_eq!(e.get_code(), FeeError::InvalidPriorityConfig.code());
    assert_eq!(FeeError::NotInitialized.code(), 1);
    assert_eq!(FeeError::AssetNotConfigured.code(), 12);
}
