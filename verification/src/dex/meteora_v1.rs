//! The share-based vault AMM venue adapter: quoting over a 14-account
//! window, and the byte payload of its swap instruction.
//!
//! The quote simulates the venue's own arithmetic exactly: fees with the
//! minimum-fee rule, a deposit into the input vault priced in vault shares,
//! the constant-product curve on the redeemable totals, and share rounding
//! again on the way out.  Ineligibility (disabled pool, unreached activation
//! gate, stable curve, staking extension, exhausted liquidity) is an empty
//! quote, never an error; malformed accounts are hard errors.
use vstd::prelude::*;
use vstd::slice::slice_subrange;
use crate::account::{Address, AccountData, ClockView, spec_clock_data_valid, spec_clock_at,
    decode_clock};
use crate::dex::{BaseData, CpiAccount, CpiAccountMeta, SwapCalculationResult};
use crate::error::Error;
use crate::protocols::meteora_v1::{Pool, Vault, CurveType, TradeDirection, ConstantProduct,
    spec_pool_data_valid, spec_pool_at, spec_vault_at, spec_calculate_fee, spec_swap,
    spec_get_amount_by_share, spec_get_unmint_amount, calculate_fee, VAULT_DATA_LEN};
use crate::spl::{spec_token_account_well_formed, spec_token_account_amount, spec_mint_well_formed,
    spec_mint_supply, unpack_token_account_unchecked, unpack_mint_supply_unchecked};
use crate::{spec_meteora_v1_program_id, meteora_v1_program_id, spec_meteora_v1_vault_program_id,
    meteora_v1_vault_program_id, spec_sysvar_clock_id, sysvar_clock_id};

verus! {

/// The all-zero address, which marks an absent staking extension.
pub open spec fn spec_zero_address() -> Address {
    Address { w0: 0, w1: 0, w2: 0, w3: 0 }
}

/// The number of consecutive accounts this venue's window holds.
pub const METEORA_V1_SWAP_ACCOUNTS_QUANTITY: usize = 14;

/// The share-based vault AMM venue.
pub struct MeteoraV1;

/// The eligibility and fee check on the pool account alone: `Err` for a
/// malformed record, a wrong mint or a fee overflow; `Ok(None)` when the pool
/// cannot serve this trade right now (staking extension configured, pool
/// disabled, activation gate unreached, stable curve); otherwise the trade
/// direction, the trade fee and the protocol's share of it.
pub open spec fn spec_check_pool(pool_data: Seq<u8>, base_data: BaseData, clock: ClockView) -> Result<Option<(TradeDirection, u64, u64)>, Error> {
    let in_token_mint = if base_data.is_from_quote_to_token {
        base_data.quote_mint
    } else {
        base_data.token_mint
    };
    if pool_data.len() < 8 {
        Err(Error::InvalidAccountData)
    } else if !spec_pool_data_valid(pool_data.skip(8)) {
        Err(Error::InvalidAccountData)
    } else {
        let p = spec_pool_at(pool_data.skip(8));
        if p.stake != spec_zero_address() {
            Ok(None)
        } else if p.bootstrapping.activation_type > 1 {
            Err(Error::InvalidArgument)
        } else if !p.enabled {
            Ok(None)
        } else {
            let current_point = if p.bootstrapping.activation_type == 0 {
                clock.slot
            } else {
                clock.unix_timestamp as u64
            };
            if current_point < p.bootstrapping.activation_point {
                Ok(None)
            } else if !(p.curve_type == CurveType::ConstantProduct) {
                Ok(None)
            } else if in_token_mint != p.token_a_mint && in_token_mint != p.token_b_mint {
                Err(Error::InvalidTokenMint)
            } else {
                match spec_calculate_fee(
                    base_data.amount_in,
                    p.fees.trade_fee_numerator,
                    p.fees.trade_fee_denominator,
                ) {
                    None => Err(Error::ArithmeticOverflow),
                    Some(trade_fee) => match spec_calculate_fee(
                        trade_fee,
                        p.fees.protocol_trade_fee_numerator,
                        p.fees.protocol_trade_fee_denominator,
                    ) {
                        None => Err(Error::ArithmeticOverflow),
                        Some(protocol_fee) => if in_token_mint == p.token_a_mint {
                            Ok(Some((TradeDirection::AtoB, trade_fee, protocol_fee)))
                        } else {
                            Ok(Some((TradeDirection::BtoA, trade_fee, protocol_fee)))
                        },
                    },
                }
            }
        }
    }
}

/// See [`spec_check_pool`].  `pool` is the pool account; its data carries an
/// 8-byte discriminator before the record.
pub fn check_pool(pool: &AccountData, base_data: &BaseData, clock: &ClockView) -> (r: Result<
    Option<(TradeDirection, u64, u64)>,
    Error,
>)
    ensures
        r == spec_check_pool(pool.data@, *base_data, *clock),
{
    let in_token_mint = if base_data.is_from_quote_to_token {
        base_data.quote_mint
    } else {
        base_data.token_mint
    };
    if pool.data.len() < 8 {
        return Err(Error::InvalidAccountData);
    }
    let record = slice_subrange(pool.data.as_slice(), 8, pool.data.len());
    proof {
        assert(record@ =~= pool.data@.skip(8));
    }
    let p = match Pool::decode(record) {
        Some(p) => p,
        None => {
            return Err(Error::InvalidAccountData);
        },
    };
    if !(p.stake.w0 == 0 && p.stake.w1 == 0 && p.stake.w2 == 0 && p.stake.w3 == 0) {
        return Ok(None);
    }
    if p.bootstrapping.activation_type > 1 {
        return Err(Error::InvalidArgument);
    }
    if !p.enabled {
        return Ok(None);
    }
    let current_point = if p.bootstrapping.activation_type == 0 {
        clock.slot
    } else {
        #[verifier::truncate] (clock.unix_timestamp as u64)
    };
    if current_point < p.bootstrapping.activation_point {
        return Ok(None);
    }
    match p.curve_type {
        CurveType::ConstantProduct => {},
        CurveType::Stable { .. } => {
            return Ok(None);
        },
    }
    if in_token_mint != p.token_a_mint && in_token_mint != p.token_b_mint {
        return Err(Error::InvalidTokenMint);
    }
    let trade_fee = match calculate_fee(
        base_data.amount_in,
        p.fees.trade_fee_numerator,
        p.fees.trade_fee_denominator,
    ) {
        Some(f) => f,
        None => {
            return Err(Error::ArithmeticOverflow);
        },
    };
    let protocol_fee = match calculate_fee(
        trade_fee,
        p.fees.protocol_trade_fee_numerator,
        p.fees.protocol_trade_fee_denominator,
    ) {
        Some(f) => f,
        None => {
            return Err(Error::ArithmeticOverflow);
        },
    };
    if in_token_mint == p.token_a_mint {
        Ok(Some((TradeDirection::AtoB, trade_fee, protocol_fee)))
    } else {
        Ok(Some((TradeDirection::BtoA, trade_fee, protocol_fee)))
    }
}

/// The pure quote over already-decoded venue state: simulate depositing the
/// input into the input vault (share rounding in), run the constant product
/// on both sides' redeemable totals, and convert the output through the
/// output vault's shares (share rounding out).  `Ok(None)` exactly when the
/// quoted output exceeds the output vault's real token balance: liquidity is
/// never invented.
pub open spec fn spec_compute_quote(
    pool_key: Address,
    trade_fee: u64,
    protocol_fee: u64,
    in_vault: Vault,
    out_vault: Vault,
    in_vault_lp: u64,
    in_vault_lp_mint: u64,
    out_vault_lp_mint: u64,
    out_vault_token_account: u64,
    in_token_total_amount: u64,
    out_token_total_amount: u64,
    current_time: u64,
    amount_in: u64,
) -> Result<Option<SwapCalculationResult>, Error> {
    if trade_fee < protocol_fee {
        Err(Error::ArithmeticOverflow)
    } else if amount_in < protocol_fee {
        Err(Error::ArithmeticOverflow)
    } else {
        let trade_fee_after_protocol = (trade_fee - protocol_fee) as u64;
        let in_amount_after_protocol_fee = (amount_in - protocol_fee) as u64;
        match spec_get_unmint_amount(
            in_vault,
            current_time,
            in_amount_after_protocol_fee,
            in_vault_lp_mint,
        ) {
            None => Err(Error::ArithmeticOverflow),
            Some(in_lp) => if in_vault.total_amount + in_amount_after_protocol_fee > u64::MAX {
                Err(Error::ArithmeticOverflow)
            } else {
                let in_vault_after = Vault {
                    total_amount: (in_vault.total_amount + in_amount_after_protocol_fee) as u64,
                    ..in_vault
                };
                if in_lp + in_vault_lp > u64::MAX || in_vault_lp_mint + in_lp > u64::MAX {
                    Err(Error::ArithmeticOverflow)
                } else {
                    match spec_get_amount_by_share(
                        in_vault_after,
                        current_time,
                        (in_lp + in_vault_lp) as u64,
                        (in_vault_lp_mint + in_lp) as u64,
                    ) {
                        None => Err(Error::ArithmeticOverflow),
                        Some(after_in_token_total_amount) => if after_in_token_total_amount
                            < in_token_total_amount {
                            Err(Error::ArithmeticOverflow)
                        } else {
                            let actual_in_amount = (after_in_token_total_amount
                                - in_token_total_amount) as u64;
                            if actual_in_amount < trade_fee_after_protocol {
                                Err(Error::ArithmeticOverflow)
                            } else {
                                let actual_in_amount_after_fee = (actual_in_amount
                                    - trade_fee_after_protocol) as u64;
                                match spec_swap(
                                    actual_in_amount_after_fee,
                                    in_token_total_amount,
                                    out_token_total_amount,
                                ) {
                                    None => Err(Error::ArithmeticOverflow),
                                    Some(swap_result) => if swap_result.destination_amount_swapped
                                        > u64::MAX {
                                        Err(Error::ArithmeticOverflow)
                                    } else {
                                        match spec_get_unmint_amount(
                                            out_vault,
                                            current_time,
                                            swap_result.destination_amount_swapped as u64,
                                            out_vault_lp_mint,
                                        ) {
                                            None => Err(Error::ArithmeticOverflow),
                                            Some(out_vault_lp) => match spec_get_amount_by_share(
                                                out_vault,
                                                current_time,
                                                out_vault_lp,
                                                out_vault_lp_mint,
                                            ) {
                                                None => Err(Error::ArithmeticOverflow),
                                                Some(amount_out) => if amount_out
                                                    > out_vault_token_account {
                                                    Ok(None)
                                                } else {
                                                    Ok(
                                                        Some(
                                                            SwapCalculationResult {
                                                                pool: pool_key,
                                                                amount_in_fee: trade_fee,
                                                                amount_out,
                                                            },
                                                        ),
                                                    )
                                                },
                                            },
                                        }
                                    },
                                }
                            }
                        },
                    }
                }
            },
        }
    }
}

impl MeteoraV1 {
    /// The venue's account-window size.
    pub fn get_swap_accounts_quantity(&self) -> (r: usize)
        ensures
            r == METEORA_V1_SWAP_ACCOUNTS_QUANTITY,
    {
        14
    }

    /// See [`spec_compute_quote`].  Beyond the exact value, the quote is
    /// bounded by the output vault's real token balance: a returned quote
    /// never exceeds `out_vault_token_account`.
    pub fn compute_quote(
        pool_key: Address,
        trade_fee: u64,
        protocol_fee: u64,
        in_vault: &Vault,
        out_vault: &Vault,
        in_vault_lp: u64,
        in_vault_lp_mint: u64,
        out_vault_lp_mint: u64,
        out_vault_token_account: u64,
        in_token_total_amount: u64,
        out_token_total_amount: u64,
        current_time: u64,
        amount_in: u64,
    ) -> (r: Result<Option<SwapCalculationResult>, Error>)
        ensures
            r == spec_compute_quote(
                pool_key,
                trade_fee,
                protocol_fee,
                *in_vault,
                *out_vault,
                in_vault_lp,
                in_vault_lp_mint,
                out_vault_lp_mint,
                out_vault_token_account,
                in_token_total_amount,
                out_token_total_amount,
                current_time,
                amount_in,
            ),
            r matches Ok(Some(q)) ==> q.amount_out <= out_vault_token_account && q.pool == pool_key
                && q.amount_in_fee == trade_fee,
    {
        let trade_fee_after_protocol = match trade_fee.checked_sub(protocol_fee) {
            Some(v) => v,
            None => {
                return Err(Error::ArithmeticOverflow);
            },
        };
        let in_amount_after_protocol_fee = match amount_in.checked_sub(protocol_fee) {
            Some(v) => v,
            None => {
                return Err(Error::ArithmeticOverflow);
            },
        };
        let before_in_token_total_amount = in_token_total_amount;
        let mut in_vault_ = *in_vault;
        let in_lp = match in_vault_.get_unmint_amount(
            current_time,
            in_amount_after_protocol_fee,
            in_vault_lp_mint,
        ) {
            Some(v) => v,
            None => {
                return Err(Error::ArithmeticOverflow);
            },
        };
        in_vault_.total_amount = match in_vault_.total_amount.checked_add(
            in_amount_after_protocol_fee,
        ) {
            Some(v) => v,
            None => {
                return Err(Error::ArithmeticOverflow);
            },
        };
        let share = match in_lp.checked_add(in_vault_lp) {
            Some(v) => v,
            None => {
                return Err(Error::ArithmeticOverflow);
            },
        };
        let supply = match in_vault_lp_mint.checked_add(in_lp) {
            Some(v) => v,
            None => {
                return Err(Error::ArithmeticOverflow);
            },
        };
        let after_in_token_total_amount = match in_vault_.get_amount_by_share(
            current_time,
            share,
            supply,
        ) {
            Some(v) => v,
            None => {
                return Err(Error::ArithmeticOverflow);
            },
        };
        let actual_in_amount = match after_in_token_total_amount.checked_sub(
            before_in_token_total_amount,
        ) {
            Some(v) => v,
            None => {
                return Err(Error::ArithmeticOverflow);
            },
        };
        let actual_in_amount_after_fee = match actual_in_amount.checked_sub(
            trade_fee_after_protocol,
        ) {
            Some(v) => v,
            None => {
                return Err(Error::ArithmeticOverflow);
            },
        };
        let swap_curve = ConstantProduct;
        let swap_result = match swap_curve.swap(
            actual_in_amount_after_fee,
            in_token_total_amount,
            out_token_total_amount,
            TradeDirection::AtoB,
        ) {
            Some(v) => v,
            None => {
                return Err(Error::ArithmeticOverflow);
            },
        };
        let destination_amount_swapped = if swap_result.destination_amount_swapped > u64::MAX
            as u128 {
            return Err(Error::ArithmeticOverflow);
        } else {
            swap_result.destination_amount_swapped as u64
        };
        let out_vault_lp = match out_vault.get_unmint_amount(
            current_time,
            destination_amount_swapped,
            out_vault_lp_mint,
        ) {
            Some(v) => v,
            None => {
                return Err(Error::ArithmeticOverflow);
            },
        };
        let amount_out_ = match out_vault.get_amount_by_share(
            current_time,
            out_vault_lp,
            out_vault_lp_mint,
        ) {
            Some(v) => v,
            None => {
                return Err(Error::ArithmeticOverflow);
            },
        };
        if amount_out_ > out_vault_token_account {
            return Ok(None);
        }
        Ok(Some(SwapCalculationResult { pool: pool_key, amount_in_fee: trade_fee, amount_out: amount_out_ }))
    }
}

/// The vault record behind an 8-byte discriminator, when present and long
/// enough.
pub open spec fn spec_vault_account_opt(s: Seq<u8>) -> Option<Vault> {
    if s.len() >= 8 + VAULT_DATA_LEN {
        Some(spec_vault_at(s.skip(8)))
    } else {
        None
    }
}

/// A token account's balance, when its record is well-formed.
pub open spec fn spec_token_amount_opt(s: Seq<u8>) -> Option<u64> {
    if spec_token_account_well_formed(s) {
        Some(spec_token_account_amount(s))
    } else {
        None
    }
}

/// A mint's supply, when its record is well-formed.
pub open spec fn spec_mint_supply_opt(s: Seq<u8>) -> Option<u64> {
    if spec_mint_well_formed(s) {
        Some(spec_mint_supply(s))
    } else {
        None
    }
}

/// See [`spec_vault_account_opt`].
fn decode_vault_account(acc: &AccountData) -> (r: Option<Vault>)
    ensures
        r == spec_vault_account_opt(acc.data@),
{
    if acc.data.len() < 8 {
        return None;
    }
    let record = slice_subrange(acc.data.as_slice(), 8, acc.data.len());
    proof {
        assert(record@ =~= acc.data@.skip(8));
    }
    Vault::decode(record)
}

/// See [`spec_token_amount_opt`].
fn token_amount(acc: &AccountData) -> (r: Option<u64>)
    ensures
        r == spec_token_amount_opt(acc.data@),
{
    match unpack_token_account_unchecked(acc.data.as_slice()) {
        Some(v) => Some(v.amount),
        None => None,
    }
}

/// See [`spec_mint_supply_opt`].
fn mint_supply(acc: &AccountData) -> (r: Option<u64>)
    ensures
        r == spec_mint_supply_opt(acc.data@),
{
    unpack_mint_supply_unchecked(acc.data.as_slice())
}

/// The whole venue quote over its 14-account window, as a value: account
/// identity and writability checks, pool eligibility, the decoded vaults,
/// share accounts and supplies, and [`spec_compute_quote`] over them.
pub open spec fn spec_do_swap_calculation(accounts: Seq<AccountData>, base_data: BaseData, first_account_index: int) -> Result<Option<SwapCalculationResult>, Error> {
    if accounts.len() < first_account_index + 14 {
        Err(Error::NotEnoughAccountKeys)
    } else {
        let meteora_program = accounts[first_account_index];
        let clock_acc = accounts[first_account_index + 1];
        let pool = accounts[first_account_index + 2];
        let a_vault = accounts[first_account_index + 3];
        let b_vault = accounts[first_account_index + 4];
        let a_token_vault = accounts[first_account_index + 5];
        let b_token_vault = accounts[first_account_index + 6];
        let a_vault_lp_mint = accounts[first_account_index + 7];
        let b_vault_lp_mint = accounts[first_account_index + 8];
        let a_vault_lp = accounts[first_account_index + 9];
        let b_vault_lp = accounts[first_account_index + 10];
        let protocol_token_fee = accounts[first_account_index + 11];
        let vault_program = accounts[first_account_index + 12];
        if meteora_program.key != spec_meteora_v1_program_id() || vault_program.key
            != spec_meteora_v1_vault_program_id() {
            Err(Error::InvalidAccountPubkey)
        } else if base_data.with_checks && !(pool.is_writable && a_vault.is_writable
            && b_vault.is_writable && a_token_vault.is_writable && b_token_vault.is_writable
            && a_vault_lp_mint.is_writable && b_vault_lp_mint.is_writable && a_vault_lp.is_writable
            && b_vault_lp.is_writable && protocol_token_fee.is_writable) {
            Err(Error::InvalidAccountConfigurationFlags)
        } else if clock_acc.key != spec_sysvar_clock_id() {
            Err(Error::InvalidArgument)
        } else if !spec_clock_data_valid(clock_acc.data@) {
            Err(Error::InvalidAccountData)
        } else {
            let clock = spec_clock_at(clock_acc.data@);
            match spec_check_pool(pool.data@, base_data, clock) {
                Err(e) => Err(e),
                Ok(None) => Ok(None),
                Ok(Some((trade_direction, trade_fee, protocol_fee))) => {
                    if spec_vault_account_opt(a_vault.data@) is None || spec_vault_account_opt(
                        b_vault.data@,
                    ) is None || spec_token_amount_opt(a_vault_lp.data@) is None
                        || spec_token_amount_opt(b_vault_lp.data@) is None || spec_mint_supply_opt(
                        a_vault_lp_mint.data@,
                    ) is None || spec_mint_supply_opt(b_vault_lp_mint.data@) is None
                        || spec_token_amount_opt(a_token_vault.data@) is None
                        || spec_token_amount_opt(b_token_vault.data@) is None {
                        Err(Error::InvalidAccountData)
                    } else if clock.unix_timestamp < 0 {
                        Err(Error::ArithmeticOverflow)
                    } else {
                        let vault_a = spec_vault_account_opt(a_vault.data@).unwrap();
                        let vault_b = spec_vault_account_opt(b_vault.data@).unwrap();
                        let pool_vault_a_lp_token = spec_token_amount_opt(
                            a_vault_lp.data@,
                        ).unwrap();
                        let pool_vault_b_lp_token = spec_token_amount_opt(
                            b_vault_lp.data@,
                        ).unwrap();
                        let vault_a_lp_mint = spec_mint_supply_opt(a_vault_lp_mint.data@).unwrap();
                        let vault_b_lp_mint = spec_mint_supply_opt(b_vault_lp_mint.data@).unwrap();
                        let vault_a_token = spec_token_amount_opt(a_token_vault.data@).unwrap();
                        let vault_b_token = spec_token_amount_opt(b_token_vault.data@).unwrap();
                        let current_time = clock.unix_timestamp as u64;
                        match spec_get_amount_by_share(
                            vault_a,
                            current_time,
                            pool_vault_a_lp_token,
                            vault_a_lp_mint,
                        ) {
                            None => Err(Error::ArithmeticOverflow),
                            Some(token_a_amount) => match spec_get_amount_by_share(
                                vault_b,
                                current_time,
                                pool_vault_b_lp_token,
                                vault_b_lp_mint,
                            ) {
                                None => Err(Error::ArithmeticOverflow),
                                Some(token_b_amount) => if trade_direction
                                    == TradeDirection::AtoB {
                                    spec_compute_quote(
                                        pool.key,
                                        trade_fee,
                                        protocol_fee,
                                        vault_a,
                                        vault_b,
                                        pool_vault_a_lp_token,
                                        vault_a_lp_mint,
                                        vault_b_lp_mint,
                                        vault_b_token,
                                        token_a_amount,
                                        token_b_amount,
                                        current_time,
                                        base_data.amount_in,
                                    )
                                } else {
                                    spec_compute_quote(
                                        pool.key,
                                        trade_fee,
                                        protocol_fee,
                                        vault_b,
                                        vault_a,
                                        pool_vault_b_lp_token,
                                        vault_b_lp_mint,
                                        vault_a_lp_mint,
                                        vault_a_token,
                                        token_b_amount,
                                        token_a_amount,
                                        current_time,
                                        base_data.amount_in,
                                    )
                                },
                            },
                        }
                    }
                },
            }
        }
    }
}

impl MeteoraV1 {
    /// The venue's quote over its account window: see
    /// [`spec_do_swap_calculation`].
    pub fn do_swap_calculation(&self, accounts: &Vec<AccountData>, base_data: &BaseData, first_account_index: usize) -> (r: Result<Option<SwapCalculationResult>, Error>)
        ensures
            r == spec_do_swap_calculation(accounts@, *base_data, first_account_index as int),
    {
        if accounts.len() < 14 || first_account_index > accounts.len() - 14 {
            return Err(Error::NotEnoughAccountKeys);
        }
        let meteora_program = &accounts[first_account_index];
        let clock_acc = &accounts[first_account_index + 1];
        let pool = &accounts[first_account_index + 2];
        let a_vault = &accounts[first_account_index + 3];
        let b_vault = &accounts[first_account_index + 4];
        let a_token_vault = &accounts[first_account_index + 5];
        let b_token_vault = &accounts[first_account_index + 6];
        let a_vault_lp_mint = &accounts[first_account_index + 7];
        let b_vault_lp_mint = &accounts[first_account_index + 8];
        let a_vault_lp = &accounts[first_account_index + 9];
        let b_vault_lp = &accounts[first_account_index + 10];
        let protocol_token_fee = &accounts[first_account_index + 11];
        let vault_program = &accounts[first_account_index + 12];
        if meteora_program.key != meteora_v1_program_id() || vault_program.key
            != meteora_v1_vault_program_id() {
            return Err(Error::InvalidAccountPubkey);
        }
        if base_data.with_checks && !(pool.is_writable && a_vault.is_writable && b_vault.is_writable
            && a_token_vault.is_writable && b_token_vault.is_writable
            && a_vault_lp_mint.is_writable && b_vault_lp_mint.is_writable && a_vault_lp.is_writable
            && b_vault_lp.is_writable && protocol_token_fee.is_writable) {
            return Err(Error::InvalidAccountConfigurationFlags);
        }
        if clock_acc.key != sysvar_clock_id() {
            return Err(Error::InvalidArgument);
        }
        let clock = match decode_clock(clock_acc.data.as_slice()) {
            Some(c) => c,
            None => {
                return Err(Error::InvalidAccountData);
            },
        };
        let (trade_direction, trade_fee, protocol_fee) = match check_pool(pool, base_data, &clock) {
            Ok(Some(t)) => t,
            Ok(None) => {
                return Ok(None);
            },
            Err(e) => {
                return Err(e);
            },
        };
        let vault_a = decode_vault_account(a_vault);
        let vault_b = decode_vault_account(b_vault);
        let pool_vault_a_lp_token = token_amount(a_vault_lp);
        let pool_vault_b_lp_token = token_amount(b_vault_lp);
        let vault_a_lp_mint = mint_supply(a_vault_lp_mint);
        let vault_b_lp_mint = mint_supply(b_vault_lp_mint);
        let vault_a_token = token_amount(a_token_vault);
        let vault_b_token = token_amount(b_token_vault);
        let (vault_a, vault_b, pool_vault_a_lp_token, pool_vault_b_lp_token, vault_a_lp_mint, vault_b_lp_mint, vault_a_token, vault_b_token) =
            match (vault_a, vault_b, pool_vault_a_lp_token, pool_vault_b_lp_token, vault_a_lp_mint, vault_b_lp_mint, vault_a_token, vault_b_token) {
            (
                Some(v0),
                Some(v1),
                Some(v2),
                Some(v3),
                Some(v4),
                Some(v5),
                Some(v6),
                Some(v7),
            ) => (v0, v1, v2, v3, v4, v5, v6, v7),
            _ => {
                return Err(Error::InvalidAccountData);
            },
        };
        if clock.unix_timestamp < 0 {
            return Err(Error::ArithmeticOverflow);
        }
        let current_time = clock.unix_timestamp as u64;
        let token_a_amount = match vault_a.get_amount_by_share(
            current_time,
            pool_vault_a_lp_token,
            vault_a_lp_mint,
        ) {
            Some(v) => v,
            None => {
                return Err(Error::ArithmeticOverflow);
            },
        };
        let token_b_amount = match vault_b.get_amount_by_share(
            current_time,
            pool_vault_b_lp_token,
            vault_b_lp_mint,
        ) {
            Some(v) => v,
            None => {
                return Err(Error::ArithmeticOverflow);
            },
        };
        match trade_direction {
            TradeDirection::AtoB => Self::compute_quote(
                pool.key,
                trade_fee,
                protocol_fee,
                &vault_a,
                &vault_b,
                pool_vault_a_lp_token,
                vault_a_lp_mint,
                vault_b_lp_mint,
                vault_b_token,
                token_a_amount,
                token_b_amount,
                current_time,
                base_data.amount_in,
            ),
            TradeDirection::BtoA => Self::compute_quote(
                pool.key,
                trade_fee,
                protocol_fee,
                &vault_b,
                &vault_a,
                pool_vault_b_lp_token,
                vault_b_lp_mint,
                vault_a_lp_mint,
                vault_a_token,
                token_b_amount,
                token_a_amount,
                current_time,
                base_data.amount_in,
            ),
        }
    }


    /// The exact account table of the venue's swap invocation, for the
    /// quote-to-target direction: the pool, the caller's source and
    /// destination accounts, both vaults with their share plumbing, the
    /// protocol fee account, the signer authority, then the two programs.
    /// The invocation's program is the window's first account.
    pub fn swap_account_order() -> (r: Vec<CpiAccountMeta>)
        ensures
            r@ == spec_swap_account_order(),
    {
        let mut r: Vec<CpiAccountMeta> = Vec::new();
        r.push(CpiAccountMeta { account: CpiAccount::Window(2usize), is_writable: true, is_signer: false });
        r.push(CpiAccountMeta { account: CpiAccount::QuoteTokenAccount, is_writable: true, is_signer: false });
        r.push(CpiAccountMeta { account: CpiAccount::DestinationTokenAccount, is_writable: true, is_signer: false });
        r.push(CpiAccountMeta { account: CpiAccount::Window(3usize), is_writable: true, is_signer: false });
        r.push(CpiAccountMeta { account: CpiAccount::Window(4usize), is_writable: true, is_signer: false });
        r.push(CpiAccountMeta { account: CpiAccount::Window(5usize), is_writable: true, is_signer: false });
        r.push(CpiAccountMeta { account: CpiAccount::Window(6usize), is_writable: true, is_signer: false });
        r.push(CpiAccountMeta { account: CpiAccount::Window(7usize), is_writable: true, is_signer: false });
        r.push(CpiAccountMeta { account: CpiAccount::Window(8usize), is_writable: true, is_signer: false });
        r.push(CpiAccountMeta { account: CpiAccount::Window(9usize), is_writable: true, is_signer: false });
        r.push(CpiAccountMeta { account: CpiAccount::Window(10usize), is_writable: true, is_signer: false });
        r.push(CpiAccountMeta { account: CpiAccount::Window(11usize), is_writable: true, is_signer: false });
        r.push(CpiAccountMeta { account: CpiAccount::SelfAuthority, is_writable: false, is_signer: true });
        r.push(CpiAccountMeta { account: CpiAccount::Window(12usize), is_writable: false, is_signer: false });
        r.push(CpiAccountMeta { account: CpiAccount::Window(13usize), is_writable: false, is_signer: false });
        proof {
            assert(r@ =~= spec_swap_account_order());
        }
        r
    }

    /// The byte payload of the venue's swap instruction: the 8-byte opcode
    /// discriminator, then the input amount and the minimum output, both
    /// little-endian.
    pub fn create_swap_instruction_data(amount_in: u64, minimum_amount_out: u64) -> (r: Vec<u8>)
        ensures
            r@ == spec_swap_instruction_data(amount_in, minimum_amount_out),
            r@.len() == 24,
    {
        let mut r: Vec<u8> = Vec::new();
        r.push(248);
        r.push(198);
        r.push(158);
        r.push(145);
        r.push(225);
        r.push(117);
        r.push(135);
        r.push(200);
        let mut a = vstd::bytes::u64_to_le_bytes(amount_in);
        r.append(&mut a);
        let mut m = vstd::bytes::u64_to_le_bytes(minimum_amount_out);
        r.append(&mut m);
        proof {
            vstd::bytes::lemma_auto_spec_u64_to_from_le_bytes();
            assert(r@ =~= spec_swap_instruction_data(amount_in, minimum_amount_out));
        }
        r
    }
}

/// [`MeteoraV1::swap_account_order`] as a value.
pub open spec fn spec_swap_account_order() -> Seq<CpiAccountMeta> {
    seq![
        CpiAccountMeta { account: CpiAccount::Window(2usize), is_writable: true, is_signer: false },
        CpiAccountMeta { account: CpiAccount::QuoteTokenAccount, is_writable: true, is_signer: false },
        CpiAccountMeta { account: CpiAccount::DestinationTokenAccount, is_writable: true, is_signer: false },
        CpiAccountMeta { account: CpiAccount::Window(3usize), is_writable: true, is_signer: false },
        CpiAccountMeta { account: CpiAccount::Window(4usize), is_writable: true, is_signer: false },
        CpiAccountMeta { account: CpiAccount::Window(5usize), is_writable: true, is_signer: false },
        CpiAccountMeta { account: CpiAccount::Window(6usize), is_writable: true, is_signer: false },
        CpiAccountMeta { account: CpiAccount::Window(7usize), is_writable: true, is_signer: false },
        CpiAccountMeta { account: CpiAccount::Window(8usize), is_writable: true, is_signer: false },
        CpiAccountMeta { account: CpiAccount::Window(9usize), is_writable: true, is_signer: false },
        CpiAccountMeta { account: CpiAccount::Window(10usize), is_writable: true, is_signer: false },
        CpiAccountMeta { account: CpiAccount::Window(11usize), is_writable: true, is_signer: false },
        CpiAccountMeta { account: CpiAccount::SelfAuthority, is_writable: false, is_signer: true },
        CpiAccountMeta { account: CpiAccount::Window(12usize), is_writable: false, is_signer: false },
        CpiAccountMeta { account: CpiAccount::Window(13usize), is_writable: false, is_signer: false },
    ]
}

/// [`MeteoraV1::create_swap_instruction_data`] as a value.
pub open spec fn spec_swap_instruction_data(amount_in: u64, minimum_amount_out: u64) -> Seq<u8> {
    seq![248u8, 198u8, 158u8, 145u8, 225u8, 117u8, 135u8, 200u8]
        + vstd::bytes::spec_u64_to_le_bytes(amount_in) + vstd::bytes::spec_u64_to_le_bytes(
        minimum_amount_out,
    )
}

} // verus!
