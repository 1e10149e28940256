use ephemeral_vault::errors::VaultError;
use ephemeral_vault::ledger::{
    approve_delegate, auto_deposit_for_trade, cleanup_vault, create_ephemeral_vault,
    execute_trade, revoke_access, EphemeralVault,
};

const NOW: i64 = 1_700_000_000;

fn fresh_vault(approved: u64, duration: i64) -> EphemeralVault {
    create_ephemeral_vault("owner".to_string(), "vault_pda".to_string(), approved, duration, NOW)
        .unwrap()
}

#[test]
fn test_create_vault_rejects_bad_parameters() {
    let r = create_ephemeral_vault("o".to_string(), "p".to_string(), 0, 3600, NOW);
    assert_eq!(r.unwrap_err(), VaultError::InvalidAmount);
    let r = create_ephemeral_vault("o".to_string(), "p".to_string(), 1000, 0, NOW);
    assert_eq!(r.unwrap_err(), VaultError::InvalidDuration);
    let r = create_ephemeral_vault("o".to_string(), "p".to_string(), 1000, -5, NOW);
    assert_eq!(r.unwrap_err(), VaultError::InvalidDuration);
}

#[test]
fn test_create_vault_initial_state() {
    let v = fresh_vault(100_000, 3600);
    assert!(v.is_active);
    assert_eq!(v.available_amount, 0);
    assert_eq!(v.used_amount, 0);
    assert_eq!(v.total_deposited, 0);
    assert_eq!(v.session_expiry, NOW + 3600);
}

#[test]
fn test_full_delegated_session_scenario() {
    // create with approved_limit 100000, duration 3600
    let mut v = fresh_vault(100_000, 3600);
    // deposit 50000
    let deposited = auto_deposit_for_trade(&mut v, 50_000, 60_000, NOW).unwrap();
    assert_eq!(deposited, 50_000);
    assert_eq!(v.available_amount, 50_000);
    // approve delegate D
    let d = approve_delegate(&v, "D".to_string(), NOW).unwrap();
    // trade as D for amount 20000, fee 1000
    execute_trade(&mut v, &d, "D", 20_000, 1_000, NOW).unwrap();
    assert_eq!(v.available_amount, 29_000);
    assert_eq!(v.used_amount, 21_000);
    // revoke: returns 29000, zeroes the free balance
    let mut d = d;
    let returned = revoke_access(&mut v, &mut d, NOW).unwrap();
    assert_eq!(returned, 29_000);
    assert_eq!(v.available_amount, 0);
    assert!(!d.is_active);
    // the vault itself stays open
    assert!(v.is_active);
}

#[test]
fn test_accounting_invariant_across_operations() {
    let mut v = fresh_vault(1_000_000, 3600);
    auto_deposit_for_trade(&mut v, 300_000, 400_000, NOW).unwrap();
    assert_eq!(v.available_amount + v.used_amount, v.total_deposited);
    let d = approve_delegate(&v, "D".to_string(), NOW).unwrap();
    execute_trade(&mut v, &d, "D", 100_000, 500, NOW).unwrap();
    assert_eq!(v.available_amount + v.used_amount, v.total_deposited);
    let mut d = d;
    revoke_access(&mut v, &mut d, NOW).unwrap();
    assert_eq!(v.available_amount + v.used_amount, v.total_deposited);
}

#[test]
fn test_deposit_applies_minimum() {
    let mut v = fresh_vault(100_000, 3600);
    // a tiny fee estimate still deposits the 5000 minimum
    let deposited = auto_deposit_for_trade(&mut v, 100, 10_000, NOW).unwrap();
    assert_eq!(deposited, 5_000);
    assert_eq!(v.available_amount, 5_000);
}

#[test]
fn test_deposit_errors() {
    let mut v = fresh_vault(100_000, 3600);
    // depositor cannot cover the amount
    let r = auto_deposit_for_trade(&mut v, 50_000, 10_000, NOW);
    assert_eq!(r.unwrap_err(), VaultError::InsufficientFunds);
    assert_eq!(v.available_amount, 0);
    // expired vault
    let r = auto_deposit_for_trade(&mut v, 50_000, 60_000, NOW + 3600);
    assert_eq!(r.unwrap_err(), VaultError::SessionExpired);
    // inactive vault
    v.is_active = false;
    let r = auto_deposit_for_trade(&mut v, 50_000, 60_000, NOW);
    assert_eq!(r.unwrap_err(), VaultError::VaultInactive);
}

#[test]
fn test_deposit_overflow_detected() {
    let mut v = fresh_vault(100_000, 3600);
    v.total_deposited = u64::MAX - 10;
    v.available_amount = u64::MAX - 10;
    let r = auto_deposit_for_trade(&mut v, 50_000, u64::MAX, NOW);
    assert_eq!(r.unwrap_err(), VaultError::Overflow);
    assert_eq!(v.total_deposited, u64::MAX - 10);
}

#[test]
fn test_trade_exceeding_balance_rejected_and_unchanged() {
    let mut v = fresh_vault(100_000, 3600);
    auto_deposit_for_trade(&mut v, 10_000, 20_000, NOW).unwrap();
    let d = approve_delegate(&v, "D".to_string(), NOW).unwrap();
    let before_available = v.available_amount;
    let before_used = v.used_amount;
    let r = execute_trade(&mut v, &d, "D", 50_000, 1_000, NOW);
    assert_eq!(r.unwrap_err(), VaultError::InsufficientBalance);
    assert_eq!(v.available_amount, before_available);
    assert_eq!(v.used_amount, before_used);
}

#[test]
fn test_trade_guard_errors() {
    let mut v = fresh_vault(100_000, 3600);
    auto_deposit_for_trade(&mut v, 50_000, 60_000, NOW).unwrap();
    let mut d = approve_delegate(&v, "D".to_string(), NOW).unwrap();
    // wrong caller
    let r = execute_trade(&mut v, &d, "E", 1_000, 10, NOW);
    assert_eq!(r.unwrap_err(), VaultError::InvalidDelegate);
    // revoked delegation
    d.is_active = false;
    let r = execute_trade(&mut v, &d, "D", 1_000, 10, NOW);
    assert_eq!(r.unwrap_err(), VaultError::InvalidDelegate);
    d.is_active = true;
    // expired session
    let r = execute_trade(&mut v, &d, "D", 1_000, 10, NOW + 7200);
    assert_eq!(r.unwrap_err(), VaultError::SessionExpired);
    // cost overflow
    let r = execute_trade(&mut v, &d, "D", u64::MAX, 1, NOW);
    assert_eq!(r.unwrap_err(), VaultError::Overflow);
}

#[test]
fn test_trade_respects_approved_limit() {
    let mut v = fresh_vault(10_000, 3600);
    auto_deposit_for_trade(&mut v, 50_000, 60_000, NOW).unwrap();
    let d = approve_delegate(&v, "D".to_string(), NOW).unwrap();
    // enough free balance, but beyond the approved spending limit
    let r = execute_trade(&mut v, &d, "D", 20_000, 1_000, NOW);
    assert_eq!(r.unwrap_err(), VaultError::InsufficientBalance);
    assert_eq!(v.used_amount, 0);
}

#[test]
fn test_revoke_twice_succeeds_returning_zero() {
    let mut v = fresh_vault(100_000, 3600);
    auto_deposit_for_trade(&mut v, 30_000, 40_000, NOW).unwrap();
    let mut d = approve_delegate(&v, "D".to_string(), NOW).unwrap();
    let first = revoke_access(&mut v, &mut d, NOW).unwrap();
    assert_eq!(first, 30_000);
    let second = revoke_access(&mut v, &mut d, NOW + 1).unwrap();
    assert_eq!(second, 0);
    assert_eq!(v.available_amount, 0);
    assert!(d.revoked_at.is_some());
}

#[test]
fn test_revoke_requires_active_vault() {
    let mut v = fresh_vault(100_000, 3600);
    let mut d = approve_delegate(&v, "D".to_string(), NOW).unwrap();
    v.is_active = false;
    let r = revoke_access(&mut v, &mut d, NOW);
    assert_eq!(r.unwrap_err(), VaultError::VaultInactive);
    assert!(d.is_active);
}

#[test]
fn test_cleanup_before_expiry_fails() {
    let mut v = fresh_vault(100_000, 3600);
    auto_deposit_for_trade(&mut v, 10_000, 20_000, NOW).unwrap();
    let r = cleanup_vault(&mut v, NOW + 100);
    assert_eq!(r.unwrap_err(), VaultError::SessionNotExpired);
    assert_eq!(v.available_amount, 10_000);
}

#[test]
fn test_cleanup_after_expiry_idempotent() {
    let mut v = fresh_vault(100_000, 3600);
    auto_deposit_for_trade(&mut v, 10_000, 20_000, NOW).unwrap();
    let returned = cleanup_vault(&mut v, NOW + 3600).unwrap();
    assert_eq!(returned, 10_000);
    assert!(!v.is_active);
    assert_eq!(v.total_deposited, 0);
    // repeating the cleanup is a no-op returning zero
    let again = cleanup_vault(&mut v, NOW + 7200).unwrap();
    assert_eq!(again, 0);
}

#[test]
fn test_approve_delegate_guards() {
    let v = fresh_vault(100_000, 3600);
    let r = approve_delegate(&v, "D".to_string(), NOW + 3600);
    assert_eq!(r.unwrap_err(), VaultError::SessionExpired);
    let mut inactive = fresh_vault(100_000, 3600);
    inactive.is_active = false;
    let r = approve_delegate(&inactive, "D".to_string(), NOW);
    assert_eq!(r.unwrap_err(), VaultError::VaultInactive);
}

#[test]
fn test_vault_error_descriptions() {
    assert_eq!(VaultError::Overflow.describe(), "Overflow in arithmetic");
    assert_eq!(VaultError::SessionNotExpired.describe(), "Session not yet expired");
}
