use dyn_amm_quote::fees::PoolFees;
use dyn_amm_quote::pool::{ActivationType, Bootstrapping, Pool};
use dyn_amm_quote::same_address;
use dyn_amm_quote::quote::{compute_quote, simulate_deposit, simulate_withdraw, QuoteData, QuoteError, QuoteResult, ValidationError};
use dyn_amm_quote::ArithmeticError;
use dyn_amm_quote::vault::{LockedProfitTracker, Vault, VaultBumps, MAX_STRATEGY};

const MINT_A: [u8; 32] = [0xA1; 32];
const MINT_B: [u8; 32] = [0xB2; 32];

fn vault(total_amount: u64, mint: [u8; 32]) -> Vault {
    Vault {
        enabled: 1,
        bumps: VaultBumps { vault_bump: 255, token_vault_bump: 255 },
        total_amount,
        token_vault: [9u8; 32],
        fee_vault: [8u8; 32],
        token_mint: mint,
        lp_mint: [7u8; 32],
        strategies: [[0u8; 32]; MAX_STRATEGY],
        base: [6u8; 32],
        admin: [5u8; 32],
        operator: [4u8; 32],
        locked_profit_tracker: LockedProfitTracker {
            last_updated_locked_profit: 0,
            last_report: 0,
            locked_profit_degradation: 0,
        },
    }
}

fn scenario() -> QuoteData {
    QuoteData {
        pool: Pool {
            token_a_mint: MINT_A,
            token_b_mint: MINT_B,
            enabled: true,
            fees: PoolFees {
                trade_fee_numerator: 25,
                trade_fee_denominator: 10_000,
                protocol_trade_fee_numerator: 20,
                protocol_trade_fee_denominator: 100,
            },
            bootstrapping: Bootstrapping {
                activation_point: 100,
                activation_type: ActivationType::Slot,
            },
        },
        vault_a: vault(1_000_000, MINT_A),
        vault_b: vault(2_000_000, MINT_B),
        pool_vault_a_lp_amount: 1_000_000,
        pool_vault_b_lp_amount: 1_000_000,
        vault_a_lp_mint_supply: 1_000_000,
        vault_b_lp_mint_supply: 1_000_000,
        vault_a_token_amount: 1_000_000,
        vault_b_token_amount: 2_000_000,
        slot: 500,
        block_time: 1_700_000_000,
    }
}

#[test]
fn end_to_end_a_to_b() {
    let r = compute_quote(MINT_A, 100_000, scenario());
    assert_eq!(r, Ok(QuoteResult { out_amount: 181_404, fee: 200 }));
}

#[test]
fn end_to_end_b_to_a() {
    // gross fee 125, protocol 25, net fee 100; deposit 49_975 into B;
    // curve on 49_875 against (2_000_000 ; 1_000_000).
    let r = compute_quote(MINT_B, 50_000, scenario());
    assert_eq!(r, Ok(QuoteResult { out_amount: 24_331, fee: 100 }));
}

#[test]
fn disabled_pool_fails() {
    let mut d = scenario();
    d.pool.enabled = false;
    d.slot = 0;
    assert_eq!(compute_quote([0u8; 32], 100_000, d), Err(QuoteError::Validation(ValidationError::PoolDisabled)));
}

#[test]
fn not_activated_by_slot_fails() {
    let mut d = scenario();
    d.slot = 99;
    assert_eq!(compute_quote(MINT_A, 100_000, d), Err(QuoteError::Validation(ValidationError::NotActivated)));
    d.slot = 100;
    assert!(compute_quote(MINT_A, 100_000, d).is_ok());
}

#[test]
fn not_activated_by_timestamp_fails() {
    let mut d = scenario();
    d.pool.bootstrapping = Bootstrapping {
        activation_point: 1_700_000_001,
        activation_type: ActivationType::Timestamp,
    };
    assert_eq!(compute_quote(MINT_A, 100_000, d), Err(QuoteError::Validation(ValidationError::NotActivated)));
    d.block_time = 1_700_000_001;
    assert!(compute_quote(MINT_A, 100_000, d).is_ok());
}

#[test]
fn negative_block_time_fails() {
    let mut d = scenario();
    d.block_time = -1;
    assert_eq!(compute_quote(MINT_A, 100_000, d), Err(QuoteError::Arithmetic(ArithmeticError::Underflow)));
}

#[test]
fn mint_mismatch_fails() {
    assert_eq!(compute_quote([0x33; 32], 100_000, scenario()), Err(QuoteError::Validation(ValidationError::MintMismatch)));
}

#[test]
fn reserve_must_exceed_output() {
    let mut d = scenario();
    d.vault_b_token_amount = 181_404;
    assert_eq!(compute_quote(MINT_A, 100_000, d), Err(QuoteError::Validation(ValidationError::InsufficientReserve)));
    d.vault_b_token_amount = 181_405;
    assert_eq!(compute_quote(MINT_A, 100_000, d), Ok(QuoteResult { out_amount: 181_404, fee: 200 }));
}

#[test]
fn empty_share_supply_fails() {
    let mut d = scenario();
    d.vault_a_lp_mint_supply = 0;
    assert_eq!(compute_quote(MINT_A, 100_000, d), Err(QuoteError::Arithmetic(ArithmeticError::DivideByZero)));
}

#[test]
fn zero_input_quotes_nothing() {
    assert_eq!(compute_quote(MINT_A, 0, scenario()), Ok(QuoteResult { out_amount: 0, fee: 0 }));
}

#[test]
fn deposit_gain_includes_rounding() {
    // Unlocked 3_000 over 7 shares; the pool holds 7.
    let v = vault(3_000, MINT_A);
    let (after, gain) = simulate_deposit(&v, 0, 1_000, 7, 7, 3_000).unwrap();
    assert_eq!(after.total_amount, 4_000);
    // 2 new shares; 9 of 9 shares of 4_000.
    assert_eq!(gain, 1_000);
    let (_, gain) = simulate_deposit(&v, 0, 1_000, 3, 7, 1_285).unwrap();
    // 5 of 9 shares of 4_000 = 2_222; minus 1_285.
    assert_eq!(gain, 937);
}

#[test]
fn withdraw_rounds_down_twice() {
    let v = vault(3_000, MINT_A);
    assert_eq!(simulate_withdraw(&v, 0, 1_000, 7), Ok(857));
}

#[test]
fn addresses_compare_by_bytes() {
    let mut b = MINT_A;
    assert!(same_address(&MINT_A, &b));
    b[31] = 0;
    assert!(!same_address(&MINT_A, &b));
}

#[test]
fn deposit_below_prior_holding_underflows() {
    let v = vault(3_000, MINT_A);
    assert_eq!(simulate_deposit(&v, 0, 1_000, 7, 7, 4_001).err(), Some(ArithmeticError::Underflow));
}

#[test]
fn deposit_total_overflow_fails() {
    let v = vault(u64::MAX - 10, MINT_A);
    assert_eq!(simulate_deposit(&v, 0, 11, 1, 1, 0).err(), Some(ArithmeticError::Overflow));
}

#[test]
fn protocol_fee_above_trade_fee_underflows() {
    let mut d = scenario();
    d.pool.fees.protocol_trade_fee_numerator = 2;
    d.pool.fees.protocol_trade_fee_denominator = 1;
    assert_eq!(compute_quote(MINT_A, 100_000, d), Err(QuoteError::Arithmetic(ArithmeticError::Underflow)));
}

#[test]
fn zero_fee_denominator_fails() {
    let mut d = scenario();
    d.pool.fees.trade_fee_denominator = 0;
    assert_eq!(compute_quote(MINT_A, 100_000, d), Err(QuoteError::Arithmetic(ArithmeticError::DivideByZero)));
}

#[test]
fn empty_reserves_divide_by_zero() {
    let mut d = scenario();
    d.pool.fees.trade_fee_numerator = 0;
    d.pool_vault_a_lp_amount = 0;
    assert_eq!(compute_quote(MINT_A, 0, d), Err(QuoteError::Arithmetic(ArithmeticError::DivideByZero)));
}

#[test]
fn negative_timestamp_is_not_activated() {
    let mut d = scenario();
    d.pool.bootstrapping = Bootstrapping {
        activation_point: 5,
        activation_type: ActivationType::Timestamp,
    };
    d.block_time = -1;
    assert_eq!(compute_quote(MINT_A, 100_000, d), Err(QuoteError::Validation(ValidationError::NotActivated)));
}

#[test]
fn negative_timestamp_with_zero_activation_point_is_not_activated() {
    let mut d = scenario();
    d.pool.bootstrapping = Bootstrapping {
        activation_point: 0,
        activation_type: ActivationType::Timestamp,
    };
    d.block_time = -1;
    assert_eq!(compute_quote(MINT_A, 100_000, d), Err(QuoteError::Validation(ValidationError::NotActivated)));
}

#[test]
fn quote_fee_plus_protocol_fee_is_gross_fee() {
    let d = scenario();
    let r = compute_quote(MINT_A, 100_000, d).unwrap();
    let gross = d.pool.fees.trading_fee(100_000).unwrap();
    let protocol = d.pool.fees.protocol_trading_fee(gross).unwrap();
    assert_eq!(r.fee as u128 + protocol, gross);
    assert_eq!(gross, 250);
}
