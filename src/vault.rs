//! Share accounting of a single vault, with linear locked-profit degradation.
use crate::{Address, ArithmeticError};
use vstd::arithmetic::div_mod::{lemma_div_by_multiple, lemma_div_is_ordered};
use vstd::prelude::*;

verus! {

/// Max strategy number that a vault can support.
pub const MAX_STRATEGY: usize = 30;

/// Denominator of the locked-profit degradation rate.
pub const LOCKED_PROFIT_DEGRADATION_DENOMINATOR: u128 = 1_000_000_000_000;

/// Vault state.
#[derive(Clone, Copy, Debug)]
pub struct Vault {
    /// When zero, users can only withdraw and cannot deposit.
    pub enabled: u8,
    /// Bump seeds of the vault's derived addresses.
    pub bumps: VaultBumps,
    /// Total liquidity of the vault: idle tokens plus what is deployed in strategies.
    pub total_amount: u64,
    /// Token account holding the vault's idle reserve.
    pub token_vault: Address,
    /// Share account receiving the performance fee.
    pub fee_vault: Address,
    /// Token mint that the vault holds.
    pub token_mint: Address,
    /// Share mint of the vault.
    pub lp_mint: Address,
    /// Strategies the vault may deploy liquidity to.
    pub strategies: [Address; MAX_STRATEGY],
    /// Base address used in the vault's seeds.
    pub base: Address,
    /// Admin of the vault.
    pub admin: Address,
    /// Operator allowed to send the rebalancing crank.
    pub operator: Address,
    /// Locked-profit bookkeeping.
    pub locked_profit_tracker: LockedProfitTracker,
}

/// Bump seeds of a vault.
#[derive(Clone, Copy, Debug)]
pub struct VaultBumps {
    pub vault_bump: u8,
    pub token_vault_bump: u8,
}

/// Locked profit as of the last report, and the rate at which it unlocks.
#[derive(Clone, Copy, Debug)]
pub struct LockedProfitTracker {
    /// Total locked profit at the last report.
    pub last_updated_locked_profit: u64,
    /// Timestamp (seconds) of the last report.
    pub last_report: u64,
    /// Degradation rate per second, over `LOCKED_PROFIT_DEGRADATION_DENOMINATOR`.
    pub locked_profit_degradation: u64,
}

/// Fraction of the locked profit that has unlocked `current_time`, over the denominator.
pub open spec fn locked_fund_ratio(t: LockedProfitTracker, current_time: u64) -> int {
    (current_time - t.last_report) * t.locked_profit_degradation
}

impl LockedProfitTracker {
    /// Locked profit still held back at `current_time`; an underflow when
    /// `current_time` precedes the last report.
    pub open spec fn locked_profit_at(self, current_time: u64) -> Result<u64, ArithmeticError> {
        if current_time < self.last_report {
            Err(ArithmeticError::Underflow)
        } else if locked_fund_ratio(self, current_time) > LOCKED_PROFIT_DEGRADATION_DENOMINATOR {
            Ok(0)
        } else {
            Ok(
                (self.last_updated_locked_profit * (LOCKED_PROFIT_DEGRADATION_DENOMINATOR
                    - locked_fund_ratio(self, current_time)) / LOCKED_PROFIT_DEGRADATION_DENOMINATOR as int) as u64,
            )
        }
    }

    /// Calculate the locked profit at `current_time` (linear degradation).
    pub fn calculate_locked_profit(&self, current_time: u64) -> (r: Result<u64, ArithmeticError>)
        ensures
            r == self.locked_profit_at(current_time),
            r matches Ok(p) ==> p <= self.last_updated_locked_profit,
    {
        if current_time < self.last_report {
            return Err(ArithmeticError::Underflow);
        }
        let duration = (current_time - self.last_report) as u128;
        let degradation = self.locked_profit_degradation as u128;
        proof {
            lemma_u64_product_fits(duration as int, degradation as int);
        }
        let ratio = duration * degradation;
        if ratio > LOCKED_PROFIT_DEGRADATION_DENOMINATOR {
            return Ok(0);
        }
        let locked = self.last_updated_locked_profit as u128;
        let remaining = LOCKED_PROFIT_DEGRADATION_DENOMINATOR - ratio;
        proof {
            lemma_scaled_down(locked as int, remaining as int, LOCKED_PROFIT_DEGRADATION_DENOMINATOR as int);
        }
        let locked_profit = locked * remaining / LOCKED_PROFIT_DEGRADATION_DENOMINATOR;
        Ok(locked_profit as u64)
    }
}

impl Vault {
    /// Amount that can leave the vault at `current_time`: total minus locked
    /// profit; an underflow when the locked profit exceeds the total.
    pub open spec fn unlocked_amount_at(self, current_time: u64) -> Result<u64, ArithmeticError> {
        match self.locked_profit_tracker.locked_profit_at(current_time) {
            Ok(locked) => if locked <= self.total_amount {
                Ok((self.total_amount - locked) as u64)
            } else {
                Err(ArithmeticError::Underflow)
            },
            Err(e) => Err(e),
        }
    }

    /// `floor(share * unlocked / total_supply)`: a division by zero when the
    /// supply is zero, an overflow when the result does not fit a `u64`.
    pub open spec fn amount_by_share_at(self, current_time: u64, share: u64, total_supply: u64) -> Result<
        u64,
        ArithmeticError,
    > {
        match self.unlocked_amount_at(current_time) {
            Ok(unlocked) => if total_supply == 0 {
                Err(ArithmeticError::DivideByZero)
            } else if share * unlocked / total_supply as int <= u64::MAX {
                Ok((share * unlocked / total_supply as int) as u64)
            } else {
                Err(ArithmeticError::Overflow)
            },
            Err(e) => Err(e),
        }
    }

    /// `floor(out_token * total_supply / unlocked)`: a division by zero when
    /// nothing is unlocked, an overflow when the result does not fit a `u64`.
    pub open spec fn unmint_amount_at(self, current_time: u64, out_token: u64, total_supply: u64) -> Result<
        u64,
        ArithmeticError,
    > {
        match self.unlocked_amount_at(current_time) {
            Ok(unlocked) => if unlocked == 0 {
                Err(ArithmeticError::DivideByZero)
            } else if out_token * total_supply / unlocked as int <= u64::MAX {
                Ok((out_token * total_supply / unlocked as int) as u64)
            } else {
                Err(ArithmeticError::Overflow)
            },
            Err(e) => Err(e),
        }
    }

    /// The same vault with another locked profit recorded at the last report.
    pub open spec fn with_locked_profit(self, locked_profit: u64) -> Vault {
        Vault {
            locked_profit_tracker: LockedProfitTracker {
                last_updated_locked_profit: locked_profit,
                ..self.locked_profit_tracker
            },
            ..self
        }
    }

    /// Get the token amount that `share` shares of `total_supply` are worth.
    pub fn get_amount_by_share(&self, current_time: u64, share: u64, total_supply: u64) -> (r: Result<
        u64,
        ArithmeticError,
    >)
        ensures
            r == self.amount_by_share_at(current_time, share, total_supply),
    {
        let total_amount = match self.get_unlocked_amount(current_time) {
            Ok(a) => a,
            Err(e) => return Err(e),
        };
        if total_supply == 0 {
            return Err(ArithmeticError::DivideByZero);
        }
        proof {
            lemma_u64_product_fits(share as int, total_amount as int);
        }
        let amount = (share as u128) * (total_amount as u128) / (total_supply as u128);
        if amount > u64::MAX as u128 {
            return Err(ArithmeticError::Overflow);
        }
        Ok(amount as u64)
    }

    /// Get the unlocked amount of the vault at `current_time`.
    pub fn get_unlocked_amount(&self, current_time: u64) -> (r: Result<u64, ArithmeticError>)
        ensures
            r == self.unlocked_amount_at(current_time),
    {
        let locked = match self.locked_profit_tracker.calculate_locked_profit(current_time) {
            Ok(l) => l,
            Err(e) => return Err(e),
        };
        match self.total_amount.checked_sub(locked) {
            Some(a) => Ok(a),
            None => Err(ArithmeticError::Underflow),
        }
    }

    /// Get the number of shares that `out_token` tokens are worth, out of `total_supply`.
    pub fn get_unmint_amount(&self, current_time: u64, out_token: u64, total_supply: u64) -> (r: Result<
        u64,
        ArithmeticError,
    >)
        ensures
            r == self.unmint_amount_at(current_time, out_token, total_supply),
    {
        let total_amount = match self.get_unlocked_amount(current_time) {
            Ok(a) => a,
            Err(e) => return Err(e),
        };
        if total_amount == 0 {
            return Err(ArithmeticError::DivideByZero);
        }
        proof {
            lemma_u64_product_fits(out_token as int, total_supply as int);
        }
        let amount = (out_token as u128) * (total_supply as u128) / (total_amount as u128);
        if amount > u64::MAX as u128 {
            return Err(ArithmeticError::Overflow);
        }
        Ok(amount as u64)
    }
}

/// The unlocked amount never exceeds the vault's total amount.
pub proof fn lemma_unlocked_within_total(vault: Vault, current_time: u64)
    ensures
        vault.unlocked_amount_at(current_time) matches Ok(u) ==> u <= vault.total_amount,
{
}

/// Holding everything else fixed, a larger locked profit at the last report
/// never gives a larger unlocked amount: where the larger one yields an
/// unlocked amount, so does the smaller, and it is at least as large.
pub proof fn lemma_unlocked_non_increasing(vault: Vault, smaller: u64, larger: u64, current_time: u64)
    requires
        smaller <= larger,
    ensures
        vault.with_locked_profit(larger).unlocked_amount_at(current_time) matches Ok(u_large)
            ==> (vault.with_locked_profit(smaller).unlocked_amount_at(current_time) matches Ok(u_small)
            && u_large <= u_small),
{
    let t_small = vault.with_locked_profit(smaller).locked_profit_tracker;
    let t_large = vault.with_locked_profit(larger).locked_profit_tracker;
    if current_time >= t_small.last_report {
        let ratio = locked_fund_ratio(t_small, current_time);
        let d = LOCKED_PROFIT_DEGRADATION_DENOMINATOR as int;
        if ratio <= d {
            assert(0 <= ratio) by (nonlinear_arith)
                requires
                    ratio == (current_time - t_small.last_report) * t_small.locked_profit_degradation,
                    current_time >= t_small.last_report,
            ;
            assert(smaller * (d - ratio) <= larger * (d - ratio)) by (nonlinear_arith)
                requires
                    smaller <= larger,
                    ratio <= d,
            ;
            lemma_div_is_ordered(smaller * (d - ratio), larger * (d - ratio), d);
            lemma_scaled_down(smaller as int, d - ratio, d);
            lemma_scaled_down(larger as int, d - ratio, d);
        }
    }
}

/// Once `(current_time - last_report) * degradation` reaches the denominator,
/// the locked profit has fully decayed to zero.
pub proof fn lemma_locked_profit_fully_decayed(tracker: LockedProfitTracker, current_time: u64)
    requires
        current_time >= tracker.last_report,
        locked_fund_ratio(tracker, current_time) >= LOCKED_PROFIT_DEGRADATION_DENOMINATOR,
    ensures
        tracker.locked_profit_at(current_time) == Ok::<u64, ArithmeticError>(0u64),
{
    let d = LOCKED_PROFIT_DEGRADATION_DENOMINATOR as int;
    if locked_fund_ratio(tracker, current_time) == d {
        assert(tracker.last_updated_locked_profit * (d - locked_fund_ratio(tracker, current_time)) == 0);
    }
}

/// Converting an amount to shares and the shares back to an amount, with
/// the same supply and a positive unlocked amount, never gives more than
/// the amount deposited (both directions round down).
pub proof fn lemma_share_round_trip_never_overshoots(vault: Vault, current_time: u64, amount: u64, total_supply: u64)
    requires
        vault.unlocked_amount_at(current_time) matches Ok(u) && u > 0,
    ensures
        vault.unmint_amount_at(current_time, amount, total_supply) matches Ok(shares) ==> total_supply == 0
            || (vault.amount_by_share_at(current_time, shares, total_supply) matches Ok(back) && back <= amount),
{
    let u = vault.unlocked_amount_at(current_time)->Ok_0 as int;
    if total_supply > 0 {
        if let Ok(shares) = vault.unmint_amount_at(current_time, amount, total_supply) {
            let n = total_supply as int;
            let s = shares as int;
            lemma_round_trip_bound(amount as int, n, u, s);
        }
    }
}

/// `s = floor(a * n / u)` implies `floor(s * u / n) <= a`.
proof fn lemma_round_trip_bound(a: int, n: int, u: int, s: int)
    requires
        a >= 0,
        n > 0,
        u > 0,
        s == a * n / u,
    ensures
        s * u / n <= a,
        s * u / n >= 0,
{
    vstd::arithmetic::div_mod::lemma_fundamental_div_mod(a * n, u);
    assert(a * n >= 0) by (nonlinear_arith)
        requires
            a >= 0,
            n > 0,
    ;
    vstd::arithmetic::div_mod::lemma_mod_bound(a * n, u);
    assert(s * u <= a * n) by (nonlinear_arith)
        requires
            a * n == u * s + (a * n) % u,
            (a * n) % u >= 0,
    ;
    assert(s >= 0) by {
        lemma_div_is_ordered(0, a * n, u);
    }
    assert(s * u >= 0) by (nonlinear_arith)
        requires
            s >= 0,
            u > 0,
    ;
    lemma_div_is_ordered(s * u, a * n, n);
    lemma_div_is_ordered(0, s * u, n);
    vstd::arithmetic::div_mod::lemma_div_by_multiple(a, n);
    vstd::arithmetic::mul::lemma_mul_is_commutative(a, n);
}

/// The product of two `u64` values fits in a `u128`.
pub proof fn lemma_u64_product_fits(a: int, b: int)
    requires
        0 <= a <= u64::MAX,
        0 <= b <= u64::MAX,
    ensures
        0 <= a * b <= u64::MAX * u64::MAX,
        a * b <= u128::MAX,
{
    assert(0 <= a * b <= u64::MAX * u64::MAX) by (nonlinear_arith)
        requires
            0 <= a <= u64::MAX,
            0 <= b <= u64::MAX,
    ;
}

/// Scaling `x` by `n / d` with `n <= d` gives at most `x`, and the product fits in a `u128`.
proof fn lemma_scaled_down(x: int, n: int, d: int)
    requires
        0 <= x <= u64::MAX,
        0 <= n <= d,
        0 < d <= u64::MAX,
    ensures
        0 <= x * n <= x * d,
        x * n <= u128::MAX,
        0 <= x * n / d <= x,
{
    assert(0 <= x * n <= x * d) by (nonlinear_arith)
        requires
            0 <= x,
            0 <= n <= d,
    ;
    lemma_u64_product_fits(x, d);
    lemma_div_is_ordered(x * n, x * d, d);
    lemma_div_by_multiple(x, d);
    lemma_div_is_ordered(0, x * n, d);
}

} // verus!
