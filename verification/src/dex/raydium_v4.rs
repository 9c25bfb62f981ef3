//! The hybrid order-book/AMM venue adapter: quoting over a 16-account
//! window, and the byte payload of its swap instruction.
//!
//! The quote checks the pool's status (applying the venue's two timed
//! auto-transitions), reconstructs tradable reserves — replaying the linked
//! order book's event queue when the pool keeps orders there — charges the
//! ceiling-division swap fee, and runs the constant-product formula.
//! Ineligibility (forbidden status, unreached open time, exhausted
//! liquidity) is an empty quote; malformed accounts and an uninitialized
//! pool are hard errors.
use vstd::prelude::*;
use crate::account::{Address, AccountData, spec_clock_data_valid, spec_clock_at, decode_clock,
    spec_word_at};
use crate::arith::lemma_mul_le;
use crate::dex::{BaseData, CpiAccount, CpiAccountMeta, SwapCalculationResult};
use crate::error::Error;
use crate::protocols::raydium_v4::{AmmInfo, AmmStatus, SwapDirection, spec_amm_info_at,
    AMM_INFO_LEN, spec_status_from_u64, spec_swap_permission, spec_orderbook_permission,
    spec_unpack_token_account, unpack_token_account, spec_load_serum_market_order,
    load_serum_market_order, spec_event_queue_valid, spec_event_queue_events, load_event_queue,
    spec_calc_total_without_take_pnl, calc_total_without_take_pnl,
    calc_total_without_take_pnl_no_orderbook, spec_u128_checked_ceil_div, u128_checked_ceil_div,
    spec_swap_token_amount_base_in, swap_token_amount_base_in};
use crate::spl::TokenAccountView;
use crate::{spec_raydium_v4_program_id, raydium_v4_program_id, spec_spl_token_program_id,
    spl_token_program_id, spec_sysvar_clock_id, sysvar_clock_id};

verus! {

/// The number of consecutive accounts this venue's window holds.
pub const RAYDIUM_V4_SWAP_ACCOUNTS_QUANTITY: usize = 16;

/// The hybrid order-book/AMM venue.
pub struct RaydiumV4;

/// [`AmmInfo::load_checked`] as a value.
pub open spec fn spec_amm_load(account: AccountData, program_id: Address) -> Result<AmmInfo, Error> {
    if account.owner != program_id {
        Err(Error::InvalidAmmAccountOwner)
    } else if account.data@.len() != AMM_INFO_LEN {
        Err(Error::ExpectedAccount)
    } else if spec_word_at(account.data@, 0) == 0 {
        Err(Error::InvalidStatus)
    } else {
        Ok(spec_amm_info_at(account.data@))
    }
}

/// The fee-and-curve core of the quote: the ceiling-division swap fee on the
/// input, the constant-product output on the reconstructed reserves, and the
/// liquidity-exhaustion guard — `Ok(None)` exactly when the output would not
/// be strictly less than the reserve on the output side.
pub open spec fn spec_compute_swap(
    pool_key: Address,
    amount_in: u64,
    swap_fee_numerator: u64,
    swap_fee_denominator: u64,
    total_pc: u64,
    total_coin: u64,
    swap_direction: SwapDirection,
) -> Result<Option<SwapCalculationResult>, Error> {
    match spec_u128_checked_ceil_div(
        (amount_in * swap_fee_numerator) as u128,
        swap_fee_denominator as u128,
    ) {
        None => Err(Error::ArithmeticOverflow),
        Some((swap_fee, _)) => if (amount_in as u128) < swap_fee {
            Err(Error::ArithmeticOverflow)
        } else {
            let swap_in_after_deduct_fee = (amount_in - swap_fee) as u128;
            let denominator_zero = match swap_direction {
                SwapDirection::Coin2PC => total_coin + swap_in_after_deduct_fee == 0,
                SwapDirection::PC2Coin => total_pc + swap_in_after_deduct_fee == 0,
            };
            if denominator_zero {
                Err(Error::ArithmeticOverflow)
            } else {
                let amount_out = spec_swap_token_amount_base_in(
                    swap_in_after_deduct_fee,
                    total_pc as u128,
                    total_coin as u128,
                    swap_direction,
                );
                if amount_out > u64::MAX {
                    Err(Error::ArithmeticOverflow)
                } else {
                    let exhausted = match swap_direction {
                        SwapDirection::Coin2PC => amount_out >= total_pc,
                        SwapDirection::PC2Coin => amount_out >= total_coin,
                    };
                    if exhausted {
                        Ok(None)
                    } else if swap_fee > u64::MAX {
                        Err(Error::ArithmeticOverflow)
                    } else {
                        Ok(
                            Some(
                                SwapCalculationResult {
                                    pool: pool_key,
                                    amount_in_fee: swap_fee as u64,
                                    amount_out: amount_out as u64,
                                },
                            ),
                        )
                    }
                }
            }
        },
    }
}

impl RaydiumV4 {
    /// The venue's account-window size.
    pub fn get_swap_accounts_quantity(&self) -> (r: usize)
        ensures
            r == RAYDIUM_V4_SWAP_ACCOUNTS_QUANTITY,
    {
        16
    }

    /// See [`spec_compute_swap`].  Beyond the exact value, a returned quote
    /// is strictly below the reserve on its output side: liquidity is never
    /// invented.
    pub fn compute_swap(
        pool_key: Address,
        amount_in: u64,
        swap_fee_numerator: u64,
        swap_fee_denominator: u64,
        total_pc: u64,
        total_coin: u64,
        swap_direction: SwapDirection,
    ) -> (r: Result<Option<SwapCalculationResult>, Error>)
        ensures
            r == spec_compute_swap(
                pool_key,
                amount_in,
                swap_fee_numerator,
                swap_fee_denominator,
                total_pc,
                total_coin,
                swap_direction,
            ),
            r matches Ok(Some(q)) ==> {
                &&& q.pool == pool_key
                &&& (swap_direction == SwapDirection::Coin2PC ==> q.amount_out < total_pc)
                &&& (swap_direction == SwapDirection::PC2Coin ==> q.amount_out < total_coin)
            },
    {
        proof {
            lemma_mul_le(amount_in as int, swap_fee_numerator as int, u64::MAX as int, u64::MAX as int);
        }
        let product = match (amount_in as u128).checked_mul(swap_fee_numerator as u128) {
            Some(p) => p,
            None => {
                return Err(Error::ArithmeticOverflow);
            },
        };
        let swap_fee = match u128_checked_ceil_div(product, swap_fee_denominator as u128) {
            Some(p) => p.0,
            None => {
                return Err(Error::ArithmeticOverflow);
            },
        };
        let swap_in_after_deduct_fee = match (amount_in as u128).checked_sub(swap_fee) {
            Some(v) => v,
            None => {
                return Err(Error::ArithmeticOverflow);
            },
        };
        let denominator = match swap_direction {
            SwapDirection::Coin2PC => total_coin as u128 + swap_in_after_deduct_fee,
            SwapDirection::PC2Coin => total_pc as u128 + swap_in_after_deduct_fee,
        };
        if denominator == 0 {
            return Err(Error::ArithmeticOverflow);
        }
        proof {
            lemma_mul_le(total_pc as int, swap_in_after_deduct_fee as int, u64::MAX as int, u64::MAX as int);
            lemma_mul_le(total_coin as int, swap_in_after_deduct_fee as int, u64::MAX as int, u64::MAX as int);
        }
        let amount_out = swap_token_amount_base_in(
            swap_in_after_deduct_fee,
            total_pc as u128,
            total_coin as u128,
            swap_direction,
        );
        if amount_out > u64::MAX as u128 {
            return Err(Error::ArithmeticOverflow);
        }
        let amount_out_ = amount_out as u64;
        let exhausted = match swap_direction {
            SwapDirection::Coin2PC => amount_out_ >= total_pc,
            SwapDirection::PC2Coin => amount_out_ >= total_coin,
        };
        if exhausted {
            return Ok(None);
        }
        if swap_fee > u64::MAX as u128 {
            return Err(Error::ArithmeticOverflow);
        }
        Ok(
            Some(
                SwapCalculationResult {
                    pool: pool_key,
                    amount_in_fee: swap_fee as u64,
                    amount_out: amount_out_,
                },
            ),
        )
    }
}

/// Reserve reconstruction and the curve, once the pool's status is settled:
/// replay the order book when the status grants book permission, then
/// direction matching on the caller's token accounts, then
/// [`spec_compute_swap`].
pub open spec fn spec_quote_with_status(
    status: u64,
    amm: AmmInfo,
    coin_vault_view: TokenAccountView,
    pc_vault_view: TokenAccountView,
    market_acc: AccountData,
    open_orders_acc: AccountData,
    authority_key: Address,
    event_q_acc: AccountData,
    user_source_owner: Address,
    user_source_data: Seq<u8>,
    user_destination_owner: Address,
    user_destination_data: Seq<u8>,
    token_program_key: Address,
    base_data: BaseData,
    pool_key: Address,
) -> Result<Option<SwapCalculationResult>, Error> {
    let totals = if spec_orderbook_permission(spec_status_from_u64(status)) {
        match spec_load_serum_market_order(market_acc, open_orders_acc, authority_key, amm, false) {
            Err(e) => Err(e),
            Ok((market_state, open_orders)) => if event_q_acc.key != market_state.event_q {
                Err(Error::WrongEventQueueAccount)
            } else if !spec_event_queue_valid(market_state, event_q_acc.key, event_q_acc.data@) {
                Err(Error::InvalidLogic)
            } else {
                spec_calc_total_without_take_pnl(
                    pc_vault_view.amount,
                    coin_vault_view.amount,
                    open_orders,
                    amm,
                    spec_event_queue_events(event_q_acc.data@),
                    open_orders_acc.key,
                )
            },
        }
    } else {
        if pc_vault_view.amount < amm.state_data.need_take_pnl_pc {
            Err(Error::ArithmeticOverflow)
        } else if coin_vault_view.amount < amm.state_data.need_take_pnl_coin {
            Err(Error::ArithmeticOverflow)
        } else {
            Ok(
                (
                    ((pc_vault_view.amount - amm.state_data.need_take_pnl_pc) as u64),
                    ((coin_vault_view.amount - amm.state_data.need_take_pnl_coin) as u64),
                ),
            )
        }
    };
    match totals {
        Err(e) => Err(e),
        Ok((total_pc_without_take_pnl, total_coin_without_take_pnl)) => {
            match spec_unpack_token_account(user_source_owner, user_source_data, token_program_key) {
                Err(e) => Err(e),
                Ok(source_view) => match spec_unpack_token_account(
                    user_destination_owner,
                    user_destination_data,
                    token_program_key,
                ) {
                    Err(e) => Err(e),
                    Ok(destination_view) => {
                        if source_view.mint == coin_vault_view.mint && destination_view.mint
                            == pc_vault_view.mint {
                            spec_compute_swap(
                                pool_key,
                                base_data.amount_in,
                                amm.fees.swap_fee_numerator,
                                amm.fees.swap_fee_denominator,
                                total_pc_without_take_pnl,
                                total_coin_without_take_pnl,
                                SwapDirection::Coin2PC,
                            )
                        } else if source_view.mint == pc_vault_view.mint && destination_view.mint
                            == coin_vault_view.mint {
                            spec_compute_swap(
                                pool_key,
                                base_data.amount_in,
                                amm.fees.swap_fee_numerator,
                                amm.fees.swap_fee_denominator,
                                total_pc_without_take_pnl,
                                total_coin_without_take_pnl,
                                SwapDirection::PC2Coin,
                            )
                        } else {
                            Err(Error::InvalidUserToken)
                        }
                    },
                },
            }
        },
    }
}

/// The whole venue quote over its 16-account window, as a value.  The clock
/// is read only when a status auto-transition needs it, as the venue itself
/// does.
pub open spec fn spec_do_swap_calculation(
    accounts: Seq<AccountData>,
    base_data: BaseData,
    user_source_owner: Address,
    user_source_data: Seq<u8>,
    user_destination_owner: Address,
    user_destination_data: Seq<u8>,
    first_account_index: int,
) -> Result<Option<SwapCalculationResult>, Error> {
    if accounts.len() < first_account_index + 16 {
        Err(Error::NotEnoughAccountKeys)
    } else {
        let raydium_program = accounts[first_account_index];
        let clock_acc = accounts[first_account_index + 1];
        let token_program = accounts[first_account_index + 2];
        let amm_pool = accounts[first_account_index + 3];
        let amm_authority = accounts[first_account_index + 4];
        let amm_open_orders = accounts[first_account_index + 5];
        let amm_coin_vault = accounts[first_account_index + 6];
        let amm_pc_vault = accounts[first_account_index + 7];
        let market = accounts[first_account_index + 9];
        let market_bids = accounts[first_account_index + 10];
        let market_asks = accounts[first_account_index + 11];
        let market_event_queue = accounts[first_account_index + 12];
        let market_coin_vault = accounts[first_account_index + 13];
        let market_pc_vault = accounts[first_account_index + 14];
        if raydium_program.key != spec_raydium_v4_program_id() {
            Err(Error::InvalidAccountPubkey)
        } else if base_data.with_checks && !(amm_pool.is_writable && amm_open_orders.is_writable
            && amm_coin_vault.is_writable && amm_pc_vault.is_writable && market.is_writable
            && market_bids.is_writable && market_asks.is_writable && market_event_queue.is_writable
            && market_coin_vault.is_writable && market_pc_vault.is_writable) {
            Err(Error::InvalidAccountConfigurationFlags)
        } else if token_program.key != spec_spl_token_program_id() {
            Err(Error::InvalidSplTokenProgram)
        } else {
            match spec_amm_load(amm_pool, raydium_program.key) {
                Err(e) => Err(e),
                Ok(amm) => match spec_unpack_token_account(amm_coin_vault.owner, amm_coin_vault.data@, token_program.key) {
                    Err(e) => Err(e),
                    Ok(coin_vault_view) => match spec_unpack_token_account(
                        amm_pc_vault.owner,
                        amm_pc_vault.data@,
                        token_program.key,
                    ) {
                        Err(e) => Err(e),
                        Ok(pc_vault_view) => if amm.status > 7 {
                            Err(Error::InvalidStatus)
                        } else if !spec_swap_permission(spec_status_from_u64(amm.status)) {
                            if clock_acc.key != spec_sysvar_clock_id() {
                                Err(Error::InvalidArgument)
                            } else if !spec_clock_data_valid(clock_acc.data@) {
                                Err(Error::InvalidAccountData)
                            } else {
                                let ts = spec_clock_at(clock_acc.data@).unix_timestamp as u64;
                                if amm.status == 5 && ts >= amm.state_data.orderbook_to_init_time {
                                    spec_quote_with_status(
                                        1u64,
                                        amm,
                                        coin_vault_view,
                                        pc_vault_view,
                                        market,
                                        amm_open_orders,
                                        amm_authority.key,
                                        market_event_queue,
                                        user_source_owner,
                                        user_source_data,
                                        user_destination_owner,
                                        user_destination_data,
                                        token_program.key,
                                        base_data,
                                        amm_pool.key,
                                    )
                                } else {
                                    Ok(None)
                                }
                            }
                        } else if amm.status == 7 {
                            if clock_acc.key != spec_sysvar_clock_id() {
                                Err(Error::InvalidArgument)
                            } else if !spec_clock_data_valid(clock_acc.data@) {
                                Err(Error::InvalidAccountData)
                            } else {
                                let ts = spec_clock_at(clock_acc.data@).unix_timestamp as u64;
                                if ts < amm.state_data.pool_open_time {
                                    Ok(None)
                                } else {
                                    spec_quote_with_status(
                                        6u64,
                                        amm,
                                        coin_vault_view,
                                        pc_vault_view,
                                        market,
                                        amm_open_orders,
                                        amm_authority.key,
                                        market_event_queue,
                                        user_source_owner,
                                        user_source_data,
                                        user_destination_owner,
                                        user_destination_data,
                                        token_program.key,
                                        base_data,
                                        amm_pool.key,
                                    )
                                }
                            }
                        } else {
                            spec_quote_with_status(
                                amm.status,
                                amm,
                                coin_vault_view,
                                pc_vault_view,
                                market,
                                amm_open_orders,
                                amm_authority.key,
                                market_event_queue,
                                user_source_owner,
                                user_source_data,
                                user_destination_owner,
                                user_destination_data,
                                token_program.key,
                                base_data,
                                amm_pool.key,
                            )
                        },
                    },
                },
            }
        }
    }
}

impl RaydiumV4 {
    /// See [`spec_quote_with_status`].
    fn quote_with_status(
        status: u64,
        amm: &AmmInfo,
        coin_vault_view: &TokenAccountView,
        pc_vault_view: &TokenAccountView,
        market_acc: &AccountData,
        open_orders_acc: &AccountData,
        authority_key: &Address,
        event_q_acc: &AccountData,
        user_source: &AccountData,
        user_destination: &AccountData,
        token_program_key: &Address,
        base_data: &BaseData,
        pool_key: Address,
    ) -> (r: Result<Option<SwapCalculationResult>, Error>)
        requires
            status <= 7,
        ensures
            r == spec_quote_with_status(
                status,
                *amm,
                *coin_vault_view,
                *pc_vault_view,
                *market_acc,
                *open_orders_acc,
                *authority_key,
                *event_q_acc,
                user_source.owner,
                user_source.data@,
                user_destination.owner,
                user_destination.data@,
                *token_program_key,
                *base_data,
                pool_key,
            ),
    {
        let totals = if AmmStatus::from_u64(status).orderbook_permission() {
            let (market_state, open_orders) = match load_serum_market_order(
                market_acc,
                open_orders_acc,
                authority_key,
                amm,
                false,
            ) {
                Ok(p) => p,
                Err(e) => {
                    return Err(e);
                },
            };
            let queue = match load_event_queue(&market_state, event_q_acc) {
                Ok(q) => q,
                Err(e) => {
                    return Err(e);
                },
            };
            match calc_total_without_take_pnl(
                pc_vault_view.amount,
                coin_vault_view.amount,
                &open_orders,
                amm,
                &queue.events,
                &open_orders_acc.key,
            ) {
                Ok(t) => t,
                Err(e) => {
                    return Err(e);
                },
            }
        } else {
            match calc_total_without_take_pnl_no_orderbook(
                pc_vault_view.amount,
                coin_vault_view.amount,
                amm,
            ) {
                Ok(t) => t,
                Err(e) => {
                    return Err(e);
                },
            }
        };
        let (total_pc_without_take_pnl, total_coin_without_take_pnl) = totals;
        let source_view = match unpack_token_account(user_source, token_program_key) {
            Ok(v) => v,
            Err(e) => {
                return Err(e);
            },
        };
        let destination_view = match unpack_token_account(user_destination, token_program_key) {
            Ok(v) => v,
            Err(e) => {
                return Err(e);
            },
        };
        let swap_direction = if source_view.mint == coin_vault_view.mint && destination_view.mint
            == pc_vault_view.mint {
            SwapDirection::Coin2PC
        } else if source_view.mint == pc_vault_view.mint && destination_view.mint
            == coin_vault_view.mint {
            SwapDirection::PC2Coin
        } else {
            return Err(Error::InvalidUserToken);
        };
        Self::compute_swap(
            pool_key,
            base_data.amount_in,
            amm.fees.swap_fee_numerator,
            amm.fees.swap_fee_denominator,
            total_pc_without_take_pnl,
            total_coin_without_take_pnl,
            swap_direction,
        )
    }

    /// The venue's quote over its account window: see
    /// [`spec_do_swap_calculation`].  `user_source` and `user_destination`
    /// are the caller's quote and destination token accounts from the
    /// instruction's fixed prefix.
    pub fn do_swap_calculation(
        &self,
        accounts: &Vec<AccountData>,
        base_data: &BaseData,
        user_source: &AccountData,
        user_destination: &AccountData,
        first_account_index: usize,
    ) -> (r: Result<Option<SwapCalculationResult>, Error>)
        ensures
            r == spec_do_swap_calculation(
                accounts@,
                *base_data,
                user_source.owner,
                user_source.data@,
                user_destination.owner,
                user_destination.data@,
                first_account_index as int,
            ),
    {
        if accounts.len() < 16 || first_account_index > accounts.len() - 16 {
            return Err(Error::NotEnoughAccountKeys);
        }
        let raydium_program = &accounts[first_account_index];
        let clock_acc = &accounts[first_account_index + 1];
        let token_program = &accounts[first_account_index + 2];
        let amm_pool = &accounts[first_account_index + 3];
        let amm_authority = &accounts[first_account_index + 4];
        let amm_open_orders = &accounts[first_account_index + 5];
        let amm_coin_vault = &accounts[first_account_index + 6];
        let amm_pc_vault = &accounts[first_account_index + 7];
        let market = &accounts[first_account_index + 9];
        let market_bids = &accounts[first_account_index + 10];
        let market_asks = &accounts[first_account_index + 11];
        let market_event_queue = &accounts[first_account_index + 12];
        let market_coin_vault = &accounts[first_account_index + 13];
        let market_pc_vault = &accounts[first_account_index + 14];
        if raydium_program.key != raydium_v4_program_id() {
            return Err(Error::InvalidAccountPubkey);
        }
        if base_data.with_checks && !(amm_pool.is_writable && amm_open_orders.is_writable
            && amm_coin_vault.is_writable && amm_pc_vault.is_writable && market.is_writable
            && market_bids.is_writable && market_asks.is_writable && market_event_queue.is_writable
            && market_coin_vault.is_writable && market_pc_vault.is_writable) {
            return Err(Error::InvalidAccountConfigurationFlags);
        }
        if token_program.key != spl_token_program_id() {
            return Err(Error::InvalidSplTokenProgram);
        }
        let amm = match AmmInfo::load_checked(amm_pool, &raydium_program.key) {
            Ok(a) => a,
            Err(e) => {
                return Err(e);
            },
        };
        let coin_vault_view = match unpack_token_account(amm_coin_vault, &token_program.key) {
            Ok(v) => v,
            Err(e) => {
                return Err(e);
            },
        };
        let pc_vault_view = match unpack_token_account(amm_pc_vault, &token_program.key) {
            Ok(v) => v,
            Err(e) => {
                return Err(e);
            },
        };
        if amm.status > 7 {
            return Err(Error::InvalidStatus);
        }
        let effective_status: u64 = if !AmmStatus::from_u64(amm.status).swap_permission() {
            if clock_acc.key != sysvar_clock_id() {
                return Err(Error::InvalidArgument);
            }
            let clock = match decode_clock(clock_acc.data.as_slice()) {
                Some(c) => c,
                None => {
                    return Err(Error::InvalidAccountData);
                },
            };
            let ts = #[verifier::truncate] (clock.unix_timestamp as u64);
            if amm.status == 5 && ts >= amm.state_data.orderbook_to_init_time {
                1
            } else {
                return Ok(None);
            }
        } else if amm.status == 7 {
            if clock_acc.key != sysvar_clock_id() {
                return Err(Error::InvalidArgument);
            }
            let clock = match decode_clock(clock_acc.data.as_slice()) {
                Some(c) => c,
                None => {
                    return Err(Error::InvalidAccountData);
                },
            };
            let ts = #[verifier::truncate] (clock.unix_timestamp as u64);
            if ts < amm.state_data.pool_open_time {
                return Ok(None);
            }
            6
        } else {
            amm.status
        };
        Self::quote_with_status(
            effective_status,
            &amm,
            &coin_vault_view,
            &pc_vault_view,
            market,
            amm_open_orders,
            &amm_authority.key,
            market_event_queue,
            user_source,
            user_destination,
            &token_program.key,
            base_data,
            amm_pool.key,
        )
    }


    /// The exact account table of the venue's swap invocation, for the
    /// quote-to-target direction: the token program, the pool and its
    /// book plumbing, the caller's source and destination accounts, then the
    /// signer authority.
    /// The invocation's program is the window's first account.
    pub fn swap_account_order() -> (r: Vec<CpiAccountMeta>)
        ensures
            r@ == spec_swap_account_order(),
    {
        let mut r: Vec<CpiAccountMeta> = Vec::new();
        r.push(CpiAccountMeta { account: CpiAccount::Window(2usize), is_writable: false, is_signer: false });
        r.push(CpiAccountMeta { account: CpiAccount::Window(3usize), is_writable: true, is_signer: false });
        r.push(CpiAccountMeta { account: CpiAccount::Window(4usize), is_writable: false, is_signer: false });
        r.push(CpiAccountMeta { account: CpiAccount::Window(5usize), is_writable: true, is_signer: false });
        r.push(CpiAccountMeta { account: CpiAccount::Window(6usize), is_writable: true, is_signer: false });
        r.push(CpiAccountMeta { account: CpiAccount::Window(7usize), is_writable: true, is_signer: false });
        r.push(CpiAccountMeta { account: CpiAccount::Window(8usize), is_writable: false, is_signer: false });
        r.push(CpiAccountMeta { account: CpiAccount::Window(9usize), is_writable: true, is_signer: false });
        r.push(CpiAccountMeta { account: CpiAccount::Window(10usize), is_writable: true, is_signer: false });
        r.push(CpiAccountMeta { account: CpiAccount::Window(11usize), is_writable: true, is_signer: false });
        r.push(CpiAccountMeta { account: CpiAccount::Window(12usize), is_writable: true, is_signer: false });
        r.push(CpiAccountMeta { account: CpiAccount::Window(13usize), is_writable: true, is_signer: false });
        r.push(CpiAccountMeta { account: CpiAccount::Window(14usize), is_writable: true, is_signer: false });
        r.push(CpiAccountMeta { account: CpiAccount::Window(15usize), is_writable: false, is_signer: false });
        r.push(CpiAccountMeta { account: CpiAccount::QuoteTokenAccount, is_writable: true, is_signer: false });
        r.push(CpiAccountMeta { account: CpiAccount::DestinationTokenAccount, is_writable: true, is_signer: false });
        r.push(CpiAccountMeta { account: CpiAccount::SelfAuthority, is_writable: false, is_signer: true });
        proof {
            assert(r@ =~= spec_swap_account_order());
        }
        r
    }

    /// The byte payload of the venue's swap instruction: the single-byte
    /// opcode, then the input amount and the minimum output, little-endian.
    pub fn create_swap_instruction_data(amount_in: u64, minimum_amount_out: u64) -> (r: Vec<u8>)
        ensures
            r@ == spec_swap_instruction_data(amount_in, minimum_amount_out),
            r@.len() == 17,
    {
        let mut r: Vec<u8> = Vec::new();
        r.push(9);
        let mut a = vstd::bytes::u64_to_le_bytes(amount_in);
        r.append(&mut a);
        let mut m = vstd::bytes::u64_to_le_bytes(minimum_amount_out);
        r.append(&mut m);
        proof {
            vstd::bytes::lemma_auto_spec_u64_to_from_le_bytes();
            assert(r@ =~= spec_swap_instruction_data(amount_in, minimum_amount_out));
        }
        r
    }
}

/// [`RaydiumV4::swap_account_order`] as a value.
pub open spec fn spec_swap_account_order() -> Seq<CpiAccountMeta> {
    seq![
        CpiAccountMeta { account: CpiAccount::Window(2usize), is_writable: false, is_signer: false },
        CpiAccountMeta { account: CpiAccount::Window(3usize), is_writable: true, is_signer: false },
        CpiAccountMeta { account: CpiAccount::Window(4usize), is_writable: false, is_signer: false },
        CpiAccountMeta { account: CpiAccount::Window(5usize), is_writable: true, is_signer: false },
        CpiAccountMeta { account: CpiAccount::Window(6usize), is_writable: true, is_signer: false },
        CpiAccountMeta { account: CpiAccount::Window(7usize), is_writable: true, is_signer: false },
        CpiAccountMeta { account: CpiAccount::Window(8usize), is_writable: false, is_signer: false },
        CpiAccountMeta { account: CpiAccount::Window(9usize), is_writable: true, is_signer: false },
        CpiAccountMeta { account: CpiAccount::Window(10usize), is_writable: true, is_signer: false },
        CpiAccountMeta { account: CpiAccount::Window(11usize), is_writable: true, is_signer: false },
        CpiAccountMeta { account: CpiAccount::Window(12usize), is_writable: true, is_signer: false },
        CpiAccountMeta { account: CpiAccount::Window(13usize), is_writable: true, is_signer: false },
        CpiAccountMeta { account: CpiAccount::Window(14usize), is_writable: true, is_signer: false },
        CpiAccountMeta { account: CpiAccount::Window(15usize), is_writable: false, is_signer: false },
        CpiAccountMeta { account: CpiAccount::QuoteTokenAccount, is_writable: true, is_signer: false },
        CpiAccountMeta { account: CpiAccount::DestinationTokenAccount, is_writable: true, is_signer: false },
        CpiAccountMeta { account: CpiAccount::SelfAuthority, is_writable: false, is_signer: true },
    ]
}

/// [`RaydiumV4::create_swap_instruction_data`] as a value.
pub open spec fn spec_swap_instruction_data(amount_in: u64, minimum_amount_out: u64) -> Seq<u8> {
    seq![9u8] + vstd::bytes::spec_u64_to_le_bytes(amount_in) + vstd::bytes::spec_u64_to_le_bytes(
        minimum_amount_out,
    )
}

} // verus!
