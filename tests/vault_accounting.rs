use dyn_amm_quote::ArithmeticError;
use dyn_amm_quote::vault::{LockedProfitTracker, Vault, VaultBumps, LOCKED_PROFIT_DEGRADATION_DENOMINATOR, MAX_STRATEGY};

fn tracker(locked: u64, last_report: u64, degradation: u64) -> LockedProfitTracker {
    LockedProfitTracker {
        last_updated_locked_profit: locked,
        last_report,
        locked_profit_degradation: degradation,
    }
}

fn vault(total_amount: u64, t: LockedProfitTracker) -> Vault {
    Vault {
        enabled: 1,
        bumps: VaultBumps { vault_bump: 255, token_vault_bump: 254 },
        total_amount,
        token_vault: [1u8; 32],
        fee_vault: [2u8; 32],
        token_mint: [3u8; 32],
        lp_mint: [4u8; 32],
        strategies: [[0u8; 32]; MAX_STRATEGY],
        base: [5u8; 32],
        admin: [6u8; 32],
        operator: [7u8; 32],
        locked_profit_tracker: t,
    }
}

#[test]
fn locked_profit_decays_linearly() {
    // Half of the denominator has elapsed: half of the profit is still locked.
    let t = tracker(1_000, 100, 5_000_000_000);
    assert_eq!(t.calculate_locked_profit(200), Ok(500));
    assert_eq!(t.calculate_locked_profit(100), Ok(1_000));
}

#[test]
fn locked_profit_rounds_down() {
    // 1 - 1/3 of 1000 locked: floor(1000 * 666_666_666_667 / 10^12) = 666.
    let t = tracker(1_000, 0, 333_333_333_333);
    assert_eq!(t.calculate_locked_profit(1), Ok(666));
}

#[test]
fn locked_profit_fully_decayed_at_denominator() {
    let t = tracker(1_000, 10, 1_000_000_000);
    assert_eq!(t.calculate_locked_profit(1_010), Ok(0));
    assert_eq!(t.calculate_locked_profit(5_000), Ok(0));
    assert_eq!(t.calculate_locked_profit(1_009), Ok(1));
    assert_eq!(LOCKED_PROFIT_DEGRADATION_DENOMINATOR, 1_000_000_000_000);
}

#[test]
fn locked_profit_before_last_report_fails() {
    let t = tracker(1_000, 10, 1);
    assert_eq!(t.calculate_locked_profit(9), Err(ArithmeticError::Underflow));
}

#[test]
fn locked_profit_with_largest_values() {
    let t = tracker(u64::MAX, 0, u64::MAX);
    assert_eq!(t.calculate_locked_profit(u64::MAX), Ok(0));
    let t = tracker(u64::MAX, 0, 0);
    assert_eq!(t.calculate_locked_profit(u64::MAX), Ok(u64::MAX));
}

#[test]
fn unlocked_amount_subtracts_locked_profit() {
    let v = vault(10_000, tracker(1_000, 100, 5_000_000_000));
    assert_eq!(v.get_unlocked_amount(200), Ok(9_500));
    assert!(v.get_unlocked_amount(200).unwrap() <= v.total_amount);
}

#[test]
fn unlocked_amount_underflow_fails() {
    let v = vault(100, tracker(1_000, 0, 0));
    assert_eq!(v.get_unlocked_amount(5), Err(ArithmeticError::Underflow));
}

#[test]
fn unlocked_amount_non_increasing_in_locked_profit() {
    let small = vault(10_000, tracker(1_000, 0, 1_000_000_000));
    let large = vault(10_000, tracker(4_000, 0, 1_000_000_000));
    let a = small.get_unlocked_amount(300).unwrap();
    let b = large.get_unlocked_amount(300).unwrap();
    assert_eq!(a, 9_300);
    assert_eq!(b, 7_200);
    assert!(b <= a);
}

#[test]
fn amount_by_share_rounds_down() {
    let v = vault(1_000, tracker(0, 0, 0));
    assert_eq!(v.get_amount_by_share(0, 1, 3), Ok(333));
    assert_eq!(v.get_amount_by_share(0, 3, 3), Ok(1_000));
}

#[test]
fn amount_by_share_zero_supply_fails() {
    let v = vault(1_000, tracker(0, 0, 0));
    assert_eq!(v.get_amount_by_share(0, 1, 0), Err(ArithmeticError::DivideByZero));
}

#[test]
fn amount_by_share_overflow_fails() {
    let v = vault(u64::MAX, tracker(0, 0, 0));
    assert_eq!(v.get_amount_by_share(0, 2, 1), Err(ArithmeticError::Overflow));
}

#[test]
fn unmint_amount_rounds_down() {
    let v = vault(3_000, tracker(0, 0, 0));
    assert_eq!(v.get_unmint_amount(0, 1_000, 1_000), Ok(333));
}

#[test]
fn unmint_amount_zero_unlocked_fails() {
    let v = vault(0, tracker(0, 0, 0));
    assert_eq!(v.get_unmint_amount(0, 10, 10), Err(ArithmeticError::DivideByZero));
}

#[test]
fn share_round_trip_never_overshoots() {
    let v = vault(3_000, tracker(0, 0, 0));
    let shares = v.get_unmint_amount(0, 1_000, 7).unwrap();
    assert_eq!(shares, 2);
    let back = v.get_amount_by_share(0, shares, 7).unwrap();
    assert_eq!(back, 857);
    assert!(back <= 1_000);
}

#[test]
fn unmint_amount_overflow_fails() {
    let v = vault(1, tracker(0, 0, 0));
    assert_eq!(v.get_unmint_amount(0, u64::MAX, 2), Err(ArithmeticError::Overflow));
}

#[test]
fn amount_by_share_propagates_locked_profit_underflow() {
    let v = vault(1_000, tracker(0, 50, 1));
    assert_eq!(v.get_amount_by_share(49, 1, 1), Err(ArithmeticError::Underflow));
    assert_eq!(v.get_unmint_amount(49, 1, 1), Err(ArithmeticError::Underflow));
}
