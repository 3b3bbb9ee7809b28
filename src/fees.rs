//! Trade fee of a pool, and the protocol's cut of it.
use crate::ArithmeticError;
use vstd::prelude::*;

verus! {

/// Fee configuration of a pool.
#[derive(Clone, Copy)]
pub struct PoolFees {
    pub trade_fee_numerator: u64,
    pub trade_fee_denominator: u64,
    /// Share of the trade fee that goes to the protocol.
    pub protocol_trade_fee_numerator: u64,
    pub protocol_trade_fee_denominator: u64,
}

/// `floor(amount * numerator / denominator)`: an overflow when the product
/// does not fit a `u128`, else a division by zero when the denominator is zero.
pub open spec fn fee_of(amount: u128, numerator: u64, denominator: u64) -> Result<u128, ArithmeticError> {
    if amount * numerator > u128::MAX {
        Err(ArithmeticError::Overflow)
    } else if denominator == 0 {
        Err(ArithmeticError::DivideByZero)
    } else {
        Ok((amount * numerator / denominator as int) as u128)
    }
}

fn calculate_fee(amount: u128, numerator: u64, denominator: u64) -> (r: Result<u128, ArithmeticError>)
    ensures
        r == fee_of(amount, numerator, denominator),
{
    let product = match amount.checked_mul(numerator as u128) {
        Some(p) => p,
        None => return Err(ArithmeticError::Overflow),
    };
    match product.checked_div(denominator as u128) {
        Some(fee) => Ok(fee),
        None => Err(ArithmeticError::DivideByZero),
    }
}

impl PoolFees {
    /// Gross trade fee on `trading_tokens`.
    pub open spec fn trading_fee_of(self, trading_tokens: u128) -> Result<u128, ArithmeticError> {
        fee_of(trading_tokens, self.trade_fee_numerator, self.trade_fee_denominator)
    }

    /// Protocol's cut of a trade fee.
    pub open spec fn protocol_trading_fee_of(self, trade_fee: u128) -> Result<u128, ArithmeticError> {
        fee_of(trade_fee, self.protocol_trade_fee_numerator, self.protocol_trade_fee_denominator)
    }

    /// Calculate the gross trade fee on `trading_tokens`.
    pub fn trading_fee(&self, trading_tokens: u128) -> (r: Result<u128, ArithmeticError>)
        ensures
            r == self.trading_fee_of(trading_tokens),
    {
        calculate_fee(trading_tokens, self.trade_fee_numerator, self.trade_fee_denominator)
    }

    /// Calculate the protocol's cut of `trade_fee`.
    pub fn protocol_trading_fee(&self, trade_fee: u128) -> (r: Result<u128, ArithmeticError>)
        ensures
            r == self.protocol_trading_fee_of(trade_fee),
    {
        calculate_fee(trade_fee, self.protocol_trade_fee_numerator, self.protocol_trade_fee_denominator)
    }
}

/// The protocol fee is carved out of the trade fee: with a protocol share of
/// at most one, it never exceeds the gross trade fee. With both shares at
/// most one and non-zero denominators, both fees are defined on every `u64`
/// amount.
pub proof fn lemma_fee_split(fees: PoolFees, amount: u64)
    requires
        fees.protocol_trade_fee_numerator <= fees.protocol_trade_fee_denominator,
    ensures
        fees.trading_fee_of(amount as u128) matches Ok(trade_fee) ==> (fees.protocol_trading_fee_of(
            trade_fee,
        ) matches Ok(protocol_fee) ==> protocol_fee <= trade_fee),
        fees.trade_fee_numerator <= fees.trade_fee_denominator && fees.trade_fee_denominator > 0
            && fees.protocol_trade_fee_denominator > 0 ==> (fees.trading_fee_of(amount as u128) matches Ok(
            trade_fee,
        ) && trade_fee <= amount && fees.protocol_trading_fee_of(trade_fee) is Ok),
{
    let n = fees.trade_fee_numerator as int;
    let d = fees.trade_fee_denominator as int;
    let pn = fees.protocol_trade_fee_numerator as int;
    let pd = fees.protocol_trade_fee_denominator as int;
    assert(amount * n <= u64::MAX * u64::MAX) by (nonlinear_arith)
        requires
            0 <= amount <= u64::MAX,
            0 <= n <= u64::MAX,
    ;
    if d > 0 {
        lemma_scaled(amount as int, n, d);
        let tf = amount * n / d;
        if pd > 0 {
            lemma_scaled(tf, pn, pd);
            if n <= d {
                assert(amount * n <= amount * d) by (nonlinear_arith)
                    requires
                        0 <= amount,
                        n <= d,
                ;
                vstd::arithmetic::div_mod::lemma_div_is_ordered(amount * n, amount * d, d);
                vstd::arithmetic::div_mod::lemma_div_by_multiple(amount as int, d);
                assert(tf * pn <= u64::MAX * u64::MAX) by (nonlinear_arith)
                    requires
                        0 <= tf <= u64::MAX,
                        0 <= pn <= u64::MAX,
                ;
            }
        }
    }
}

/// `x * n / d` is non-negative, and at most `x` when `n <= d`.
proof fn lemma_scaled(x: int, n: int, d: int)
    requires
        x >= 0,
        n >= 0,
        d > 0,
    ensures
        x * n >= 0,
        x * n / d >= 0,
        n <= d ==> x * n / d <= x,
{
    assert(x * n >= 0) by (nonlinear_arith)
        requires
            x >= 0,
            n >= 0,
    ;
    vstd::arithmetic::div_mod::lemma_div_is_ordered(0, x * n, d);
    if n <= d {
        assert(x * n <= x * d) by (nonlinear_arith)
            requires
                x >= 0,
                n <= d,
        ;
        vstd::arithmetic::div_mod::lemma_div_is_ordered(x * n, x * d, d);
        vstd::arithmetic::div_mod::lemma_div_by_multiple(x, d);
    }
}

} // verus!
