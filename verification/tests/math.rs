//! Fee and curve arithmetic: exact values for both venues' rounding rules.
use intermediary::protocols::meteora_v1::{calculate_fee, checked_ceil_div, map_zero_to_none,
    ConstantProduct, LockedProfitTracker, PoolFees, TradeDirection, Vault, VaultBumps, DepegType};
use intermediary::protocols::raydium_v4::{u128_checked_ceil_div, swap_token_amount_base_in,
    validate_fraction, AmmStatus, Fees, SwapDirection};
use intermediary::account::Address;
use intermediary::error::Error;

fn zero_addr() -> Address {
    Address { w0: 0, w1: 0, w2: 0, w3: 0 }
}

fn test_vault(total_amount: u64) -> Vault {
    Vault {
        enabled: 1,
        bumps: VaultBumps { vault_bump: 0, token_vault_bump: 0 },
        total_amount,
        token_vault: zero_addr(),
        fee_vault: zero_addr(),
        token_mint: zero_addr(),
        lp_mint: zero_addr(),
        base: zero_addr(),
        admin: zero_addr(),
        operator: zero_addr(),
        locked_profit_tracker: LockedProfitTracker {
            last_updated_locked_profit: 0,
            last_report: 0,
            locked_profit_degradation: 0,
        },
    }
}

#[test]
fn calculate_fee_floor_division() {
    // 10,000 * 25 / 10,000 = 25 exactly.
    assert_eq!(calculate_fee(10_000, 25, 10_000), Some(25));
    // Floor: 9,999 * 25 / 10,000 = 24.9975 -> 24.
    assert_eq!(calculate_fee(9_999, 25, 10_000), Some(24));
}

#[test]
fn calculate_fee_minimum_fee_rule() {
    // Nonzero rate with a floor of zero charges exactly one unit.
    assert_eq!(calculate_fee(1, 25, 10_000), Some(1));
    assert_eq!(calculate_fee(399, 25, 10_000), Some(1));
    // A zero rate or a zero amount charges nothing.
    assert_eq!(calculate_fee(0, 25, 10_000), Some(0));
    assert_eq!(calculate_fee(10_000, 0, 10_000), Some(0));
    // A zero denominator with a nonzero rate cannot be priced.
    assert_eq!(calculate_fee(10_000, 25, 0), None);
}

#[test]
fn pool_fees_trading_and_protocol() {
    let fees = PoolFees {
        trade_fee_numerator: 25,
        trade_fee_denominator: 10_000,
        protocol_trade_fee_numerator: 0,
        protocol_trade_fee_denominator: 1,
    };
    assert_eq!(fees.trading_fee(10_000), Some(25));
    assert_eq!(fees.protocol_trading_fee(25), Some(0));
    // The host fee is a fixed 20,000 / 100,000 floor cut.
    assert_eq!(fees.host_trading_fee(10), Some(2));
    assert_eq!(fees.host_trading_fee(4), Some(0));
}

#[test]
fn locked_profit_decays_linearly() {
    let t = LockedProfitTracker {
        last_updated_locked_profit: 1_000,
        last_report: 100,
        locked_profit_degradation: 500_000_000_000,
    };
    // Right at the report: everything still locked.
    assert_eq!(t.calculate_locked_profit(100), Some(1_000));
    // One second in: half the window elapsed, half locked.
    assert_eq!(t.calculate_locked_profit(101), Some(500));
    // Past the window: nothing locked.
    assert_eq!(t.calculate_locked_profit(103), Some(0));
    // Before the report time the schedule is undefined.
    assert_eq!(t.calculate_locked_profit(99), None);
}

#[test]
fn vault_share_pricing() {
    let v = test_vault(1_000_000);
    // 1:1 share price when supply equals the unlocked total.
    assert_eq!(v.get_amount_by_share(0, 250_000, 1_000_000), Some(250_000));
    assert_eq!(v.get_unmint_amount(0, 250_000, 1_000_000), Some(250_000));
    // Shares price in the unlocked total, rounded down.
    assert_eq!(v.get_amount_by_share(0, 3, 7), Some(428_571));
    // A zero supply cannot price shares.
    assert_eq!(v.get_amount_by_share(0, 1, 0), None);
}

#[test]
fn meteora_ceil_div_rounds_up() {
    // 7 / 2 -> quotient ceil 4, matching divisor ceil(7/4) = 2.
    assert_eq!(checked_ceil_div(7, 2), Some((4, 2)));
    // Exact division keeps the divisor.
    assert_eq!(checked_ceil_div(8, 2), Some((4, 2)));
    // A quotient that would round up from zero fails outright.
    assert_eq!(checked_ceil_div(1, 2), None);
    assert_eq!(checked_ceil_div(1, 0), None);
}

#[test]
fn raydium_ceil_div_rounds_small_quotients_to_nearest() {
    assert_eq!(u128_checked_ceil_div(7, 2), Some((4, 2)));
    assert_eq!(u128_checked_ceil_div(8, 2), Some((4, 2)));
    // Under one: at least half rounds to one, below half to zero.
    assert_eq!(u128_checked_ceil_div(1, 2), Some((1, 0)));
    assert_eq!(u128_checked_ceil_div(1, 3), Some((0, 0)));
    assert_eq!(u128_checked_ceil_div(1, 0), None);
}

#[test]
fn ceiling_fee_identity_holds_above_half() {
    // fee = ceil(amount * num / den) whenever 2 * amount * num >= den:
    // check via fee * den - amount * num in [0, den).
    for (amount, num, den) in [(20_000u128, 25u128, 10_000u128), (9_999, 25, 10_000), (1, 5_000, 10_000)] {
        let fee = u128_checked_ceil_div(amount * num, den).unwrap().0;
        let slack = fee * den - amount * num;
        assert!(slack < den);
    }
    // The excluded inputs: a nonzero product under half the denominator is
    // rounded down to a zero fee, where the ceiling would be one.
    assert_eq!(u128_checked_ceil_div(1 * 25, 10_000).unwrap().0, 0);
}

#[test]
fn constant_product_swap_scenario() {
    // reserves in = 1,000,000, out = 2,000,000, net input 9,975:
    // output = floor(2,000,000 * 9,975 / 1,009,975) = 19,752.
    let r = ConstantProduct.swap(9_975, 1_000_000, 2_000_000, TradeDirection::AtoB).unwrap();
    assert_eq!(r.destination_amount_swapped, 19_752);
    assert_eq!(r.source_amount_swapped, 9_975);
    assert_eq!(r.new_swap_source_amount, 1_009_975);
    assert_eq!(r.new_swap_destination_amount, 2_000_000 - 19_752);
    // A swap that would drain nothing fails.
    assert_eq!(ConstantProduct::swap_(0, 1_000_000, 2_000_000), None);
    assert_eq!(map_zero_to_none(0), None);
    assert_eq!(map_zero_to_none(3), Some(3));
}

#[test]
fn swap_token_amount_base_in_scenario() {
    // totalPc = 500,000, totalCoin = 1,000,000, net coin in = 19,950:
    // out = floor(500,000 * 19,950 / 1,019,950) = 9,779.
    let out = swap_token_amount_base_in(19_950, 500_000, 1_000_000, SwapDirection::Coin2PC);
    assert_eq!(out, 9_779);
    let out2 = swap_token_amount_base_in(9_975, 500_000, 1_000_000, SwapDirection::PC2Coin);
    assert_eq!(out2, 1_000_000u128 * 9_975 / 509_975);
}

#[test]
fn fee_fractions_must_be_proper() {
    assert_eq!(validate_fraction(25, 10_000), Ok(()));
    assert_eq!(validate_fraction(10_000, 10_000), Err(Error::InvalidFee));
    assert_eq!(validate_fraction(1, 0), Err(Error::InvalidFee));
    let mut fees = Fees {
        min_separate_numerator: 0,
        min_separate_denominator: 0,
        trade_fee_numerator: 0,
        trade_fee_denominator: 0,
        pnl_numerator: 0,
        pnl_denominator: 0,
        swap_fee_numerator: 0,
        swap_fee_denominator: 0,
    };
    assert_eq!(fees.validate(), Err(Error::InvalidFee));
    fees.initialize().unwrap();
    assert_eq!(fees.validate(), Ok(()));
    assert_eq!(fees.swap_fee_numerator, 25);
    assert_eq!(fees.swap_fee_denominator, 10_000);
}

#[test]
fn amm_status_permissions() {
    assert!(AmmStatus::valid_status(6));
    assert!(!AmmStatus::valid_status(0));
    assert!(!AmmStatus::valid_status(8));
    assert_eq!(AmmStatus::from_u64(6).into_u64(), 6);
    assert!(AmmStatus::from_u64(6).swap_permission());
    assert!(AmmStatus::from_u64(7).swap_permission());
    assert!(!AmmStatus::from_u64(5).swap_permission());
    assert!(AmmStatus::from_u64(5).orderbook_permission());
    assert!(AmmStatus::from_u64(1).orderbook_permission());
    assert!(!AmmStatus::from_u64(6).orderbook_permission());
    assert!(AmmStatus::from_u64(1).deposit_permission());
    assert!(!AmmStatus::from_u64(2).withdraw_permission());
}

#[test]
fn depeg_type_is_none() {
    assert!(DepegType::NoDepeg.is_none());
    assert!(!DepegType::Marinade.is_none());
}
