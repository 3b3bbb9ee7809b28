//! Validation and pricing of a swap quote against a fetched snapshot.
use crate::fees::PoolFees;
use crate::pool::{ActivationType, Pool};
use crate::swap::{constant_product_swap, ConstantProduct, SwapCurve, TradeDirection};
use crate::vault::Vault;
use crate::{same_address, Address, ArithmeticError};
use vstd::prelude::*;

verus! {

/// Everything a quote reads, fetched at one moment.
#[derive(Clone, Copy)]
pub struct QuoteData {
    /// Pool state to swap against.
    pub pool: Pool,
    /// Vault holding token A.
    pub vault_a: Vault,
    /// Vault holding token B.
    pub vault_b: Vault,
    /// Shares of vault A held by the pool.
    pub pool_vault_a_lp_amount: u64,
    /// Shares of vault B held by the pool.
    pub pool_vault_b_lp_amount: u64,
    /// Share supply of vault A.
    pub vault_a_lp_mint_supply: u64,
    /// Share supply of vault B.
    pub vault_b_lp_mint_supply: u64,
    /// Balance of vault A's reserve token account.
    pub vault_a_token_amount: u64,
    /// Balance of vault B's reserve token account.
    pub vault_b_token_amount: u64,
    /// Current slot.
    pub slot: u64,
    /// Current block timestamp, in seconds.
    pub block_time: i64,
}

/// Outcome of a quote.
#[derive(Clone, Copy, Debug, PartialEq, Eq, Structural)]
pub struct QuoteResult {
    /// Amount of output token received.
    pub out_amount: u64,
    /// Trade fee after the protocol's cut, in the input token.
    pub fee: u64,
}

/// A business rule that refused a quote.
#[derive(Clone, Copy, Debug, PartialEq, Eq, Structural)]
pub enum ValidationError {
    /// The pool is disabled.
    PoolDisabled,
    /// The pool's activation point has not been reached.
    NotActivated,
    /// The input mint is neither of the pool's mints.
    MintMismatch,
    /// The output does not stay strictly below the output vault's reserve.
    InsufficientReserve,
}

/// Why a quote was refused.
#[derive(Clone, Copy, Debug, PartialEq, Eq, Structural)]
pub enum QuoteError {
    Validation(ValidationError),
    Arithmetic(ArithmeticError),
}

/// The point compared with the activation point: the slot, or the block
/// timestamp, which may be negative.
pub open spec fn current_point_of(d: QuoteData) -> int {
    match d.pool.bootstrapping.activation_type {
        ActivationType::Slot => d.slot as int,
        ActivationType::Timestamp => d.block_time as int,
    }
}

/// Deposit `amount` into `vault` whose pool holds `lp_amount` of `lp_supply`
/// shares, worth `before` tokens: the vault after the deposit, and how much
/// the pool's holding grew.
pub open spec fn deposit_gain(vault: Vault, t: u64, amount: u64, lp_amount: u64, lp_supply: u64, before: u64) -> Result<
    (Vault, u64),
    ArithmeticError,
> {
    match vault.unmint_amount_at(t, amount, lp_supply) {
        Err(e) => Err(e),
        Ok(new_lp) => if vault.total_amount + amount > u64::MAX || new_lp + lp_amount > u64::MAX
            || lp_supply + new_lp > u64::MAX {
            Err(ArithmeticError::Overflow)
        } else {
            let after_vault = Vault { total_amount: (vault.total_amount + amount) as u64, ..vault };
            match after_vault.amount_by_share_at(
                t,
                (new_lp + lp_amount) as u64,
                (lp_supply + new_lp) as u64,
            ) {
                Err(e) => Err(e),
                Ok(after) => if after < before {
                    Err(ArithmeticError::Underflow)
                } else {
                    Ok((after_vault, (after - before) as u64))
                },
            }
        },
    }
}

/// Withdraw `amount` from `vault`: converted to shares and back, both
/// rounding down, with the supply unchanged.
pub open spec fn withdraw_amount(vault: Vault, t: u64, amount: u64, lp_supply: u64) -> Result<u64, ArithmeticError> {
    match vault.unmint_amount_at(t, amount, lp_supply) {
        Ok(lp) => vault.amount_by_share_at(t, lp, lp_supply),
        Err(e) => Err(e),
    }
}

/// An arithmetic failure of a quote.
pub open spec fn arithmetic(e: ArithmeticError) -> Result<QuoteResult, QuoteError> {
    Err(QuoteError::Arithmetic(e))
}

/// Price a validated swap of `in_amount` from the input vault into the output
/// vault at time `t`; `in_total` and `out_total` are the pool's holdings in
/// each vault, in tokens.
pub open spec fn priced_quote(
    fees: PoolFees,
    in_vault: Vault,
    out_vault: Vault,
    in_lp_amount: u64,
    in_lp_supply: u64,
    out_lp_supply: u64,
    out_reserve: u64,
    in_total: u64,
    out_total: u64,
    in_amount: u64,
    t: u64,
) -> Result<QuoteResult, QuoteError> {
    match fees.trading_fee_of(in_amount as u128) {
        Err(e) => arithmetic(e),
        Ok(gross_fee) => match fees.protocol_trading_fee_of(gross_fee) {
            Err(e) => arithmetic(e),
            Ok(protocol_fee) => if protocol_fee > gross_fee {
                arithmetic(ArithmeticError::Underflow)
            } else if protocol_fee > u64::MAX {
                arithmetic(ArithmeticError::Overflow)
            } else if protocol_fee > in_amount {
                arithmetic(ArithmeticError::Underflow)
            } else {
                let trade_fee = gross_fee - protocol_fee;
                let in_after_protocol_fee = (in_amount - protocol_fee) as u64;
                match deposit_gain(in_vault, t, in_after_protocol_fee, in_lp_amount, in_lp_supply, in_total) {
                    Err(e) => arithmetic(e),
                    Ok((_, actual_in)) => if trade_fee > u64::MAX {
                        arithmetic(ArithmeticError::Overflow)
                    } else if trade_fee > actual_in {
                        arithmetic(ArithmeticError::Underflow)
                    } else {
                        match constant_product_swap((actual_in - trade_fee) as u64, in_total, out_total) {
                            Err(e) => arithmetic(e),
                            Ok(res) => match withdraw_amount(
                                out_vault,
                                t,
                                res.destination_amount_swapped as u64,
                                out_lp_supply,
                            ) {
                                Err(e) => arithmetic(e),
                                Ok(out_amount) => if out_amount >= out_reserve {
                                    Err(QuoteError::Validation(ValidationError::InsufficientReserve))
                                } else {
                                    Ok(QuoteResult { out_amount, fee: trade_fee as u64 })
                                },
                            },
                        }
                    },
                }
            },
        },
    }
}

/// The quote for swapping `in_amount` of `in_mint` against the snapshot `d`.
pub open spec fn quote_of(in_mint: Seq<u8>, in_amount: u64, d: QuoteData) -> Result<QuoteResult, QuoteError> {
    if !d.pool.enabled {
        Err(QuoteError::Validation(ValidationError::PoolDisabled))
    } else if current_point_of(d) < d.pool.bootstrapping.activation_point as int {
        Err(QuoteError::Validation(ValidationError::NotActivated))
    } else if d.block_time < 0 {
        arithmetic(ArithmeticError::Underflow)
    } else if in_mint != d.pool.token_a_mint@ && in_mint != d.pool.token_b_mint@ {
        Err(QuoteError::Validation(ValidationError::MintMismatch))
    } else {
        let t = d.block_time as u64;
        match d.vault_a.amount_by_share_at(t, d.pool_vault_a_lp_amount, d.vault_a_lp_mint_supply) {
            Err(e) => arithmetic(e),
            Ok(token_a_amount) => match d.vault_b.amount_by_share_at(
                t,
                d.pool_vault_b_lp_amount,
                d.vault_b_lp_mint_supply,
            ) {
                Err(e) => arithmetic(e),
                Ok(token_b_amount) => if in_mint == d.pool.token_a_mint@ {
                    priced_quote(
                        d.pool.fees,
                        d.vault_a,
                        d.vault_b,
                        d.pool_vault_a_lp_amount,
                        d.vault_a_lp_mint_supply,
                        d.vault_b_lp_mint_supply,
                        d.vault_b_token_amount,
                        token_a_amount,
                        token_b_amount,
                        in_amount,
                        t,
                    )
                } else {
                    priced_quote(
                        d.pool.fees,
                        d.vault_b,
                        d.vault_a,
                        d.pool_vault_b_lp_amount,
                        d.vault_b_lp_mint_supply,
                        d.vault_a_lp_mint_supply,
                        d.vault_a_token_amount,
                        token_b_amount,
                        token_a_amount,
                        in_amount,
                        t,
                    )
                },
            },
        }
    }
}

/// Simulate depositing `amount` into `vault`, whose pool holds `lp_amount` of
/// `lp_supply` shares worth `before` tokens. Returns the vault after the
/// deposit and how much the pool's holding grew, which includes the vault's
/// rounding on the deposit.
pub fn simulate_deposit(vault: &Vault, current_time: u64, amount: u64, lp_amount: u64, lp_supply: u64, before: u64) -> (r:
    Result<(Vault, u64), ArithmeticError>)
    ensures
        r == deposit_gain(*vault, current_time, amount, lp_amount, lp_supply, before),
{
    let new_lp = match vault.get_unmint_amount(current_time, amount, lp_supply) {
        Ok(s) => s,
        Err(e) => return Err(e),
    };
    let mut after_vault = *vault;
    after_vault.total_amount = match vault.total_amount.checked_add(amount) {
        Some(total) => total,
        None => return Err(ArithmeticError::Overflow),
    };
    let held = match new_lp.checked_add(lp_amount) {
        Some(h) => h,
        None => return Err(ArithmeticError::Overflow),
    };
    let supply = match lp_supply.checked_add(new_lp) {
        Some(s) => s,
        None => return Err(ArithmeticError::Overflow),
    };
    let after = match after_vault.get_amount_by_share(current_time, held, supply) {
        Ok(a) => a,
        Err(e) => return Err(e),
    };
    match after.checked_sub(before) {
        Some(gain) => Ok((after_vault, gain)),
        None => Err(ArithmeticError::Underflow),
    }
}

/// Simulate withdrawing `amount` from `vault`: the amount is converted to
/// shares and the shares back to an amount, with the supply unchanged.
pub fn simulate_withdraw(vault: &Vault, current_time: u64, amount: u64, lp_supply: u64) -> (r: Result<u64, ArithmeticError>)
    ensures
        r == withdraw_amount(*vault, current_time, amount, lp_supply),
{
    match vault.get_unmint_amount(current_time, amount, lp_supply) {
        Ok(lp) => vault.get_amount_by_share(current_time, lp, lp_supply),
        Err(e) => Err(e),
    }
}

/// Price a validated swap: fees, the deposit into the input vault, the
/// constant-product curve, the withdrawal from the output vault, and the
/// reserve check.
fn price_swap(
    fees: &PoolFees,
    in_vault: &Vault,
    out_vault: &Vault,
    in_lp_amount: u64,
    in_lp_supply: u64,
    out_lp_supply: u64,
    out_reserve: u64,
    in_total: u64,
    out_total: u64,
    in_amount: u64,
    current_time: u64,
    trade_direction: TradeDirection,
) -> (r: Result<QuoteResult, QuoteError>)
    ensures
        r == priced_quote(
            *fees,
            *in_vault,
            *out_vault,
            in_lp_amount,
            in_lp_supply,
            out_lp_supply,
            out_reserve,
            in_total,
            out_total,
            in_amount,
            current_time,
        ),
{
    let gross_fee = match fees.trading_fee(in_amount as u128) {
        Ok(f) => f,
        Err(e) => return Err(QuoteError::Arithmetic(e)),
    };
    let protocol_fee = match fees.protocol_trading_fee(gross_fee) {
        Ok(f) => f,
        Err(e) => return Err(QuoteError::Arithmetic(e)),
    };
    // The protocol fee is a cut from the trade fee.
    let trade_fee = match gross_fee.checked_sub(protocol_fee) {
        Some(f) => f,
        None => return Err(QuoteError::Arithmetic(ArithmeticError::Underflow)),
    };
    if protocol_fee > u64::MAX as u128 {
        return Err(QuoteError::Arithmetic(ArithmeticError::Overflow));
    }
    let in_amount_after_protocol_fee = match in_amount.checked_sub(protocol_fee as u64) {
        Some(a) => a,
        None => return Err(QuoteError::Arithmetic(ArithmeticError::Underflow)),
    };
    let actual_in_amount = match simulate_deposit(
        in_vault,
        current_time,
        in_amount_after_protocol_fee,
        in_lp_amount,
        in_lp_supply,
        in_total,
    ) {
        Ok((_, gain)) => gain,
        Err(e) => return Err(QuoteError::Arithmetic(e)),
    };
    if trade_fee > u64::MAX as u128 {
        return Err(QuoteError::Arithmetic(ArithmeticError::Overflow));
    }
    let actual_in_amount_after_fee = match actual_in_amount.checked_sub(trade_fee as u64) {
        Some(a) => a,
        None => return Err(QuoteError::Arithmetic(ArithmeticError::Underflow)),
    };
    let curve = ConstantProduct {};
    let swapped = match curve.swap(actual_in_amount_after_fee, in_total, out_total, trade_direction) {
        Ok(res) => res.destination_amount_swapped,
        Err(e) => return Err(QuoteError::Arithmetic(e)),
    };
    let out_amount = match simulate_withdraw(out_vault, current_time, swapped as u64, out_lp_supply) {
        Ok(a) => a,
        Err(e) => return Err(QuoteError::Arithmetic(e)),
    };
    if out_amount >= out_reserve {
        return Err(QuoteError::Validation(ValidationError::InsufficientReserve));
    }
    Ok(QuoteResult { out_amount, fee: trade_fee as u64 })
}

/// Quote a swap of `in_amount` of `in_token_mint` against the snapshot
/// `quote_data`: validate the pool, then price the swap as the vaults and
/// the curve would execute it.
pub fn compute_quote(in_token_mint: Address, in_amount: u64, quote_data: QuoteData) -> (r: Result<
    QuoteResult,
    QuoteError,
>)
    ensures
        r == quote_of(in_token_mint@, in_amount, quote_data),
{
    let d = quote_data;
    if !d.pool.enabled {
        return Err(QuoteError::Validation(ValidationError::PoolDisabled));
    }
    let activation_point = d.pool.bootstrapping.activation_point;
    let not_activated = match d.pool.bootstrapping.activation_type {
        ActivationType::Slot => d.slot < activation_point,
        ActivationType::Timestamp => d.block_time < 0 || (d.block_time as u64) < activation_point,
    };
    if not_activated {
        return Err(QuoteError::Validation(ValidationError::NotActivated));
    }
    if d.block_time < 0 {
        return Err(QuoteError::Arithmetic(ArithmeticError::Underflow));
    }
    let current_time = d.block_time as u64;
    let is_a = same_address(&in_token_mint, &d.pool.token_a_mint);
    if !is_a && !same_address(&in_token_mint, &d.pool.token_b_mint) {
        return Err(QuoteError::Validation(ValidationError::MintMismatch));
    }
    let token_a_amount = match d.vault_a.get_amount_by_share(
        current_time,
        d.pool_vault_a_lp_amount,
        d.vault_a_lp_mint_supply,
    ) {
        Ok(a) => a,
        Err(e) => return Err(QuoteError::Arithmetic(e)),
    };
    let token_b_amount = match d.vault_b.get_amount_by_share(
        current_time,
        d.pool_vault_b_lp_amount,
        d.vault_b_lp_mint_supply,
    ) {
        Ok(a) => a,
        Err(e) => return Err(QuoteError::Arithmetic(e)),
    };
    if is_a {
        price_swap(
            &d.pool.fees,
            &d.vault_a,
            &d.vault_b,
            d.pool_vault_a_lp_amount,
            d.vault_a_lp_mint_supply,
            d.vault_b_lp_mint_supply,
            d.vault_b_token_amount,
            token_a_amount,
            token_b_amount,
            in_amount,
            current_time,
            TradeDirection::AtoB,
        )
    } else {
        price_swap(
            &d.pool.fees,
            &d.vault_b,
            &d.vault_a,
            d.pool_vault_b_lp_amount,
            d.vault_b_lp_mint_supply,
            d.vault_a_lp_mint_supply,
            d.vault_a_token_amount,
            token_b_amount,
            token_a_amount,
            in_amount,
            current_time,
            TradeDirection::BtoA,
        )
    }
}

/// A disabled pool refuses every quote, whatever else the snapshot holds.
pub proof fn lemma_disabled_pool_refuses(in_mint: Seq<u8>, in_amount: u64, d: QuoteData)
    requires
        !d.pool.enabled,
    ensures
        quote_of(in_mint, in_amount, d) == Err::<QuoteResult, QuoteError>(QuoteError::Validation(ValidationError::PoolDisabled)),
{
}

/// An enabled pool whose activation point lies ahead of the current slot or
/// timestamp refuses every quote as not activated.
pub proof fn lemma_inactive_pool_refuses(in_mint: Seq<u8>, in_amount: u64, d: QuoteData)
    requires
        d.pool.enabled,
        current_point_of(d) < d.pool.bootstrapping.activation_point as int,
    ensures
        quote_of(in_mint, in_amount, d) == Err::<QuoteResult, QuoteError>(QuoteError::Validation(ValidationError::NotActivated)),
{
}

/// The fee of a successful quote is the gross trade fee on the input amount
/// less the protocol's cut: the returned fee plus the protocol fee is exactly
/// the gross trade fee, and the protocol fee never exceeds it.
pub proof fn lemma_quote_fee_split(in_mint: Seq<u8>, in_amount: u64, d: QuoteData)
    ensures
        quote_of(in_mint, in_amount, d) matches Ok(res) ==> (d.pool.fees.trading_fee_of(in_amount as u128) matches Ok(
            gross_fee,
        ) && d.pool.fees.protocol_trading_fee_of(gross_fee) matches Ok(protocol_fee) && res.fee + protocol_fee
            == gross_fee && protocol_fee <= gross_fee),
{
}

} // verus!
