use fee_contracts::fee::calculate_priority_fee_rate;
use fee_contracts::priority::{PriorityFeeConfig, PriorityLevel};

#[test]
fn test_priority_level_from_u32() {
    assert_eq!(PriorityLevel::from_u32(0), Some(PriorityLevel::Low));
    assert_eq!(PriorityLevel::from_u32(1), Some(PriorityLevel::Medium));
    assert_eq!(PriorityLevel::from_u32(2), Some(PriorityLevel::High));
    assert_eq!(PriorityLevel::from_u32(3), Some(PriorityLevel::Urgent));
    assert_eq!(PriorityLevel::from_u32(4), None);
    assert_eq!(PriorityLevel::from_u32(100), None);
}

#[test]
fn test_priority_level_to_u32() {
    assert_eq!(PriorityLevel::Low.to_u32(), 0);
    assert_eq!(PriorityLevel::Medium.to_u32(), 1);
    assert_eq!(PriorityLevel::High.to_u32(), 2);
    assert_eq!(PriorityLevel::Urgent.to_u32(), 3);
}

#[test]
fn test_priority_level_ordering() {
    assert!(PriorityLevel::Low < PriorityLevel::Medium);
    assert!(PriorityLevel::Medium < PriorityLevel::High);
    assert!(PriorityLevel::High < PriorityLevel::Urgent);
    assert!(PriorityLevel::Low < PriorityLevel::Urgent);
}

#[test]
fn test_priority_level_default() {
    assert_eq!(PriorityLevel::default(), PriorityLevel::Medium);
}

#[test]
fn test_priority_fee_config_default() {
    let config = PriorityFeeConfig::default();

    // Default values should be ascending
    assert_eq!(config.low_multiplier_bps, 8000);
    assert_eq!(config.medium_multiplier_bps, 10000);
    assert_eq!(config.high_multiplier_bps, 15000);
    assert_eq!(config.urgent_multiplier_bps, 20000);
}

#[test]
fn test_priority_fee_config_is_valid() {
    // Valid: ascending order
    let valid_config = PriorityFeeConfig {
        low_multiplier_bps: 5000,
        medium_multiplier_bps: 10000,
        high_multiplier_bps: 15000,
        urgent_multiplier_bps: 20000,
    };
    assert!(valid_config.is_valid());

    // Valid: equal values allowed
    let equal_config = PriorityFeeConfig {
        low_multiplier_bps: 10000,
        medium_multiplier_bps: 10000,
        high_multiplier_bps: 10000,
        urgent_multiplier_bps: 10000,
    };
    assert!(equal_config.is_valid());
}

#[test]
fn test_priority_fee_config_is_invalid() {
    // Invalid: descending order
    let invalid_config = PriorityFeeConfig {
        low_multiplier_bps: 20000,
        medium_multiplier_bps: 15000,
        high_multiplier_bps: 10000,
        urgent_multiplier_bps: 5000,
    };
    assert!(!invalid_config.is_valid());

    // Invalid: high > urgent
    let invalid_config2 = PriorityFeeConfig {
        low_multiplier_bps: 8000,
        medium_multiplier_bps: 10000,
        high_multiplier_bps: 20000,
        urgent_multiplier_bps: 15000,
    };
    assert!(!invalid_config2.is_valid());
}

#[test]
fn test_priority_fee_config_get_multiplier() {
    let config = PriorityFeeConfig::default();

    assert_eq!(config.get_multiplier_bps(PriorityLevel::Low), 8000);
    assert_eq!(config.get_multiplier_bps(PriorityLevel::Medium), 10000);
    assert_eq!(config.get_multiplier_bps(PriorityLevel::High), 15000);
    assert_eq!(config.get_multiplier_bps(PriorityLevel::Urgent), 20000);
}

#[test]
fn test_calculate_priority_fee_rate() {
    let config = PriorityFeeConfig::default();
    let base_rate = 1000u32; // 10%

    // Low: 1000 * 8000 / 10000 = 800 (8%)
    assert_eq!(calculate_priority_fee_rate(base_rate, PriorityLevel::Low, &config), 800);

    // Medium: 1000 * 10000 / 10000 = 1000 (10%)
    assert_eq!(calculate_priority_fee_rate(base_rate, PriorityLevel::Medium, &config), 1000);

    // High: 1000 * 15000 / 10000 = 1500 (15%)
    assert_eq!(calculate_priority_fee_rate(base_rate, PriorityLevel::High, &config), 1500);

    // Urgent: 1000 * 20000 / 10000 = 2000 (20%)
    assert_eq!(calculate_priority_fee_rate(base_rate, PriorityLevel::Urgent, &config), 2000);
}

#[test]
fn priority_codes_round_trip() {
    for level in [
        PriorityLevel::Low,
        PriorityLevel::Medium,
        PriorityLevel::High,
        PriorityLevel::Urgent,
    ] {
        assert_eq!(PriorityLevel::from_u32(level.to_u32()), Some(level));
    }
}

#[test]
fn priority_rate_wraps_when_scaled_rate_exceeds_u32() {
    let config = PriorityFeeConfig::default();
    // u32::MAX * 20000 / 10000 = 2 * u32::MAX, which a u32 holds modulo 2^32.
    let expected = ((u32::MAX as u64 * 2) % (1u64 << 32)) as u32;
    assert_eq!(
        calculate_priority_fee_rate(u32::MAX, PriorityLevel::Urgent, &config),
        expected
    );
    // Rounding down: 1 * 8000 / 10000 = 0.
    assert_eq!(calculate_priority_fee_rate(1, PriorityLevel::Low, &config), 0);
}
