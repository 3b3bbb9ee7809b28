use dyn_amm_quote::fees::PoolFees;
use dyn_amm_quote::ArithmeticError;
use dyn_amm_quote::swap::{ConstantProduct, SwapCurve, SwapResult, TradeDirection};

fn fees(n: u64, d: u64, pn: u64, pd: u64) -> PoolFees {
    PoolFees {
        trade_fee_numerator: n,
        trade_fee_denominator: d,
        protocol_trade_fee_numerator: pn,
        protocol_trade_fee_denominator: pd,
    }
}

#[test]
fn trading_fee_rounds_down() {
    let f = fees(25, 10_000, 20, 100);
    assert_eq!(f.trading_fee(100_000), Ok(250));
    assert_eq!(f.trading_fee(399), Ok(0));
    assert_eq!(f.protocol_trading_fee(250), Ok(50));
}

#[test]
fn fee_split_is_exact() {
    let f = fees(30, 1_000, 1, 3);
    let gross = f.trading_fee(12_345).unwrap();
    let protocol = f.protocol_trading_fee(gross).unwrap();
    assert_eq!(gross, 370);
    assert_eq!(protocol, 123);
    assert!(protocol <= gross);
    assert_eq!(gross, (gross - protocol) + protocol);
}

#[test]
fn fee_zero_denominator_fails() {
    let f = fees(25, 0, 20, 0);
    assert_eq!(f.trading_fee(100), Err(ArithmeticError::DivideByZero));
    assert_eq!(f.protocol_trading_fee(100), Err(ArithmeticError::DivideByZero));
}

#[test]
fn fee_overflow_fails() {
    let f = fees(u64::MAX, 1, 0, 1);
    assert_eq!(f.trading_fee(u128::MAX), Err(ArithmeticError::Overflow));
    let f = fees(2, 0, 0, 1);
    assert_eq!(f.trading_fee(u128::MAX), Err(ArithmeticError::Overflow));
}

#[test]
fn constant_product_swap_values() {
    let r = ConstantProduct {}.swap(100, 1_000, 1_000, TradeDirection::AtoB).unwrap();
    assert_eq!(
        r,
        SwapResult {
            new_swap_source_amount: 1_100,
            new_swap_destination_amount: 909,
            source_amount_swapped: 100,
            destination_amount_swapped: 91,
        }
    );
    assert!(r.new_swap_source_amount * r.new_swap_destination_amount <= 1_000 * 1_000);
}

#[test]
fn constant_product_zero_input_swaps_nothing() {
    let r = ConstantProduct {}.swap(0, 5_000, 7_000, TradeDirection::BtoA).unwrap();
    assert_eq!(r.destination_amount_swapped, 0);
    assert_eq!(r.new_swap_destination_amount, 7_000);
}

#[test]
fn constant_product_empty_reserves_fail() {
    assert_eq!(ConstantProduct {}.swap(0, 0, 7_000, TradeDirection::AtoB), Err(ArithmeticError::DivideByZero));
}

#[test]
fn constant_product_largest_values() {
    let r = ConstantProduct {}.swap(u64::MAX, u64::MAX, u64::MAX, TradeDirection::AtoB).unwrap();
    assert_eq!(r.new_swap_source_amount, 2 * (u64::MAX as u128));
    assert_eq!(r.new_swap_destination_amount, (u64::MAX as u128) / 2);
    assert!(r.destination_amount_swapped <= u64::MAX as u128);
}
