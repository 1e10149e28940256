use ephemeral_vault::errors::AppError;
use ephemeral_vault::models::{TransactionStatus, TransactionType, VaultConfig};
use ephemeral_vault::planner::AutoDepositCalculator;
use ephemeral_vault::security::SecurityManager;
use ephemeral_vault::signer::TransactionSigner;

const NOW: i64 = 1_700_000_000;

#[test]
fn test_rate_limit_exact_boundary() {
    // with limit N, the (N+1)-th call within the window fails
    let mut sec = SecurityManager::new();
    let limit = 4usize;
    for _ in 0..limit {
        sec.check_rate_limit_at("1.1.1.1", limit, NOW).unwrap();
    }
    let r = sec.check_rate_limit_at("1.1.1.1", limit, NOW);
    assert!(matches!(r, Err(AppError::RateLimitExceeded)));
}

#[test]
fn test_rate_limit_window_rollover_resets() {
    let mut sec = SecurityManager::new();
    sec.check_rate_limit_at("2.2.2.2", 2, NOW).unwrap();
    sec.check_rate_limit_at("2.2.2.2", 2, NOW).unwrap();
    assert!(sec.check_rate_limit_at("2.2.2.2", 2, NOW + 30).is_err());
    // sixty-one seconds after the first hit the window has rolled over
    sec.check_rate_limit_at("2.2.2.2", 2, NOW + 61).unwrap();
    sec.check_rate_limit_at("2.2.2.2", 2, NOW + 61).unwrap();
    assert!(sec.check_rate_limit_at("2.2.2.2", 2, NOW + 61).is_err());
}

#[test]
fn test_rate_limit_keys_independent() {
    let mut sec = SecurityManager::new();
    sec.check_rate_limit_at("3.3.3.3", 1, NOW).unwrap();
    // another key has its own window
    sec.check_rate_limit_at("4.4.4.4", 1, NOW).unwrap();
    assert!(sec.check_rate_limit_at("3.3.3.3", 1, NOW).is_err());
}

#[test]
fn test_rate_limit_with_wall_clock() {
    let mut sec = SecurityManager::new();
    sec.check_rate_limit("5.5.5.5", 2).unwrap();
    sec.check_rate_limit("5.5.5.5", 2).unwrap();
    assert!(sec.check_rate_limit("5.5.5.5", 2).is_err());
}

#[test]
fn test_anomaly_flagged_on_spike() {
    let mut sec = SecurityManager::new();
    // seed the average at 100
    assert!(!sec.detect_anomaly_at("w", 100, 20, NOW).unwrap());
    // spike: updated average is (3*1000 + 7*100) / 10 = 370;
    // 1000 > 2.0 * 370, so the observation is flagged
    assert!(sec.detect_anomaly_at("w", 1000, 20, NOW).unwrap());
}

#[test]
fn test_anomaly_first_observation_never_flagged() {
    let mut sec = SecurityManager::new();
    assert!(!sec.detect_anomaly_at("a", 1, 10, NOW).unwrap());
    assert!(!sec.detect_anomaly_at("b", u64::MAX, 25, NOW).unwrap());
    assert!(!sec.detect_anomaly_at("c", 0, 10, NOW).unwrap());
}

#[test]
fn test_anomaly_with_wall_clock() {
    let mut sec = SecurityManager::new();
    assert!(!sec.detect_anomaly("w2", 500, 25).unwrap());
}

#[test]
fn test_fingerprint_deterministic_and_distinct() {
    let a = SecurityManager::generate_device_fingerprint("Mozilla", "192.168.1.1");
    let b = SecurityManager::generate_device_fingerprint("Mozilla", "192.168.1.1");
    assert_eq!(a, b);
    let c = SecurityManager::generate_device_fingerprint("Mozilla", "192.168.1.2");
    assert_ne!(a, c);
    assert!(a.chars().all(|ch| ch.is_ascii_hexdigit() && !ch.is_ascii_uppercase()));
}

#[test]
fn test_validate_device_fingerprint_rules() {
    let stored = Some("abc".to_string());
    assert!(matches!(
        SecurityManager::validate_device_fingerprint(&stored, "xyz"),
        Err(AppError::SuspiciousActivity)
    ));
    assert!(SecurityManager::validate_device_fingerprint(&stored, "abc").is_ok());
    assert!(SecurityManager::validate_device_fingerprint(&None, "anything").is_ok());
}

#[test]
fn test_deposit_for_fee_exact_buffer() {
    let calc = AutoDepositCalculator::new(5000);
    // 10000 plus a 150% buffer of 15000
    assert_eq!(calc.calculate_deposit_amount(10_000).unwrap(), 25_000);
    // an odd estimate rounds the buffer to the nearest unit: 3 + round(4.5) = 8
    assert_eq!(calc.calculate_deposit_amount(3).unwrap(), 8);
    // overflow is an error, not a wrap
    assert!(matches!(
        calc.calculate_deposit_amount(u64::MAX),
        Err(AppError::InsufficientFunds)
    ));
}

#[test]
fn test_should_topup_thresholds() {
    let calc = AutoDepositCalculator::new(1000);
    // balance below base_fee * pending * 2
    assert!(calc.should_topup(0, 1));
    assert!(calc.should_topup(1999, 1));
    assert!(!calc.should_topup(2000, 1));
    assert!(!calc.should_topup(1_000_000_000, 1));
}

#[test]
fn test_optimal_topup_exact() {
    let calc = AutoDepositCalculator::new(1000);
    // target is 3000; short by 2500
    assert_eq!(calc.calculate_optimal_topup(500, 1), 2500);
    assert_eq!(calc.calculate_optimal_topup(3000, 1), 0);
}

#[test]
fn test_estimate_trade_fee_exact() {
    let calc = AutoDepositCalculator::new(5000);
    // small trades pay the one-unit minimum of the size fee
    assert_eq!(calc.estimate_trade_fee(1), 5_100);
    assert_eq!(calc.estimate_trade_fee(50_000_000), 10_000);
}

#[test]
fn test_priority_fee_levels_exact() {
    assert_eq!(TransactionSigner::calculate_priority_fee(4000, 1), 4000);
    assert_eq!(TransactionSigner::calculate_priority_fee(4000, 2), 6000);
    assert_eq!(TransactionSigner::calculate_priority_fee(4000, 3), 12000);
    assert_eq!(TransactionSigner::calculate_priority_fee(4000, 7), 20000);
    // saturates instead of wrapping
    assert_eq!(TransactionSigner::calculate_priority_fee(u64::MAX, 3), u64::MAX);
}

#[test]
fn test_validate_ip_empty_rejected() {
    assert!(matches!(
        SecurityManager::validate_ip(""),
        Err(AppError::InvalidRequest(_))
    ));
    assert!(SecurityManager::validate_ip("10.0.0.1").is_ok());
}

#[test]
fn test_app_error_status_codes_and_descriptions() {
    assert_eq!(AppError::RateLimitExceeded.status_code(), 429);
    assert_eq!(AppError::SuspiciousActivity.status_code(), 403);
    assert_eq!(AppError::Unauthorized.status_code(), 401);
    assert_eq!(AppError::NotFound.status_code(), 404);
    assert_eq!(AppError::RateLimitExceeded.describe(), "Rate limit exceeded");
    assert_eq!(
        AppError::CryptoError("bad tag".to_string()).describe(),
        "Cryptographic error: bad tag"
    );
}

#[test]
fn test_transaction_labels() {
    assert_eq!(TransactionType::Deposit.label(), "deposit");
    assert_eq!(TransactionType::Trade.label(), "trade");
    assert_eq!(TransactionType::Withdrawal.label(), "withdrawal");
    assert_eq!(TransactionType::Fee.label(), "fee");
    assert_eq!(TransactionStatus::Pending.label(), "pending");
    assert_eq!(TransactionStatus::Confirmed.label(), "confirmed");
    assert_eq!(TransactionStatus::Failed.label(), "failed");
}

#[test]
fn test_vault_config_defaults() {
    let c = VaultConfig::default();
    assert_eq!(c.max_concurrent_sessions, 1000);
    assert_eq!(c.session_duration_secs, 3600);
    assert_eq!(c.inactivity_timeout_secs, 1800);
    assert_eq!(c.min_deposit_amount, 5000);
    assert_eq!(c.max_deposit_amount, 10_000_000_000);
    assert_eq!(c.rate_limit_per_minute, 100);
    assert_eq!(c.anomaly_detection_threshold_tenths, 25);
}
