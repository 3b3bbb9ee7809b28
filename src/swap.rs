//! Constant-product swap curve.
use crate::ArithmeticError;
use vstd::prelude::*;

verus! {

/// The constant-product curve `x * y = k`.
pub struct ConstantProduct {}

/// Outcome of a swap on a curve.
#[derive(Debug, PartialEq, Eq, Structural)]
pub struct SwapResult {
    /// New amount of source token in the pool.
    pub new_swap_source_amount: u128,
    /// New amount of destination token in the pool.
    pub new_swap_destination_amount: u128,
    /// Amount of source token swapped (fees included).
    pub source_amount_swapped: u128,
    /// Amount of destination token swapped out.
    pub destination_amount_swapped: u128,
}

/// Which side of the pool is the input.
#[derive(Clone, Copy, Debug, PartialEq, Eq, Structural)]
pub enum TradeDirection {
    AtoB,
    BtoA,
}

/// A curve that prices a swap from the input and the two reserves.
pub trait SwapCurve {
    /// Swap `source_amount` against reserves `swap_source_amount` (input side)
    /// and `swap_destination_amount` (output side).
    fn swap(
        &self,
        source_amount: u64,
        swap_source_amount: u64,
        swap_destination_amount: u64,
        trade_direction: TradeDirection,
    ) -> (r: Result<SwapResult, ArithmeticError>)
        ensures
            r matches Ok(res) ==> res.destination_amount_swapped <= swap_destination_amount,
    ;
}

/// Constant-product outcome of adding `dx` to reserve `x` against reserve `y`:
/// a division by zero when both `x` and `dx` are zero.
pub open spec fn constant_product_swap(dx: u64, x: u64, y: u64) -> Result<SwapResult, ArithmeticError> {
    if x + dx == 0 {
        Err(ArithmeticError::DivideByZero)
    } else {
        Ok(
            SwapResult {
                new_swap_source_amount: (x + dx) as u128,
                new_swap_destination_amount: (x * y / (x + dx)) as u128,
                source_amount_swapped: dx as u128,
                destination_amount_swapped: (y - x * y / (x + dx)) as u128,
            },
        )
    }
}

impl SwapCurve for ConstantProduct {
    fn swap(
        &self,
        source_amount: u64,
        swap_source_amount: u64,
        swap_destination_amount: u64,
        _trade_direction: TradeDirection,
    ) -> (r: Result<SwapResult, ArithmeticError>)
        ensures
            r == constant_product_swap(source_amount, swap_source_amount, swap_destination_amount),
            r matches Ok(res) ==> res.new_swap_source_amount * res.new_swap_destination_amount
                <= swap_source_amount * swap_destination_amount,
    {
        let dx = source_amount as u128;
        let x = swap_source_amount as u128;
        let y = swap_destination_amount as u128;
        let new_x = x + dx;
        if new_x == 0 {
            return Err(ArithmeticError::DivideByZero);
        }
        proof {
            lemma_curve(dx as int, x as int, y as int);
        }
        let new_y = x * y / new_x;
        let destination_amount_swapped = y - new_y;
        Ok(
            SwapResult {
                new_swap_source_amount: new_x,
                new_swap_destination_amount: new_y,
                source_amount_swapped: dx,
                destination_amount_swapped,
            },
        )
    }
}

/// Bounds of the constant-product step: the product of reserves fits a
/// `u128`, the new output reserve is at most the old one, and the product
/// of the new reserves never exceeds the old product.
pub proof fn lemma_curve(dx: int, x: int, y: int)
    requires
        0 <= dx <= u64::MAX,
        0 <= x <= u64::MAX,
        0 <= y <= u64::MAX,
        x + dx > 0,
    ensures
        0 <= x * y <= u128::MAX,
        0 <= x * y / (x + dx) <= y,
        (x + dx) * (x * y / (x + dx)) <= x * y,
{
    crate::vault::lemma_u64_product_fits(x, y);
    assert(x * y <= (x + dx) * y) by (nonlinear_arith)
        requires
            0 <= dx,
            0 <= y,
    ;
    vstd::arithmetic::div_mod::lemma_div_is_ordered(x * y, (x + dx) * y, x + dx);
    vstd::arithmetic::div_mod::lemma_div_is_ordered(0, x * y, x + dx);
    vstd::arithmetic::mul::lemma_mul_is_commutative(x + dx, y);
    vstd::arithmetic::div_mod::lemma_div_by_multiple(y, x + dx);
    vstd::arithmetic::div_mod::lemma_fundamental_div_mod(x * y, x + dx);
    vstd::arithmetic::div_mod::lemma_mod_bound(x * y, x + dx);
}

/// The constant-product curve never increases the product of the reserves
/// and never pays out more than the output reserve.
pub proof fn lemma_constant_product_never_gains(dx: u64, x: u64, y: u64)
    ensures
        constant_product_swap(dx, x, y) matches Ok(res) ==> (res.new_swap_source_amount
            * res.new_swap_destination_amount <= x * y && res.destination_amount_swapped <= y),
{
    if x + dx > 0 {
        lemma_curve(dx as int, x as int, y as int);
    }
}

} // verus!
