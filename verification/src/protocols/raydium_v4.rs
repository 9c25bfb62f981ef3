//! The hybrid order-book/AMM protocol: the AMM pool record, its status and
//! permission table, the fee schedule with ceiling-division swap fees, the
//! linked order-book market, the open-orders ledger, and the event-queue
//! replay that reconstructs the liquidity still resting on the book.
//!
//! All records live in externally-owned accounts with fixed binary layouts;
//! each decoder validates length, padding markers and flag bits before
//! interpreting bytes, and every decoded field is pinned to the byte it came
//! from.
use vstd::prelude::*;
use vstd::slice::slice_subrange;
use crate::account::{Address, AccountData, spec_word_at, spec_u128_at, spec_address_at,
    read_u64_le, read_u128_le, read_address};
use crate::arith::lemma_mul_le;
use crate::error::Error;

verus! {

/// The lifecycle status a pool account declares.
#[derive(Clone, Copy, PartialEq, Eq, Structural, Debug)]
pub enum AmmStatus {
    Uninitialized,
    Initialized,
    Disabled,
    WithdrawOnly,
    LiquidityOnly,
    OrderBookOnly,
    SwapOnly,
    WaitingTrade,
}

impl AmmStatus {
    /// The status a stored status word denotes.  Words above 7 denote no
    /// status at all and are rejected by the callers before this point.
    pub fn from_u64(status: u64) -> (r: AmmStatus)
        requires
            status <= 7,
        ensures
            r == spec_status_from_u64(status),
    {
        match status {
            0u64 => AmmStatus::Uninitialized,
            1u64 => AmmStatus::Initialized,
            2u64 => AmmStatus::Disabled,
            3u64 => AmmStatus::WithdrawOnly,
            4u64 => AmmStatus::LiquidityOnly,
            5u64 => AmmStatus::OrderBookOnly,
            6u64 => AmmStatus::SwapOnly,
            _ => AmmStatus::WaitingTrade,
        }
    }

    pub fn into_u64(&self) -> (r: u64)
        ensures
            r == spec_status_into_u64(*self),
    {
        match *self {
            AmmStatus::Uninitialized => 0u64,
            AmmStatus::Initialized => 1u64,
            AmmStatus::Disabled => 2u64,
            AmmStatus::WithdrawOnly => 3u64,
            AmmStatus::LiquidityOnly => 4u64,
            AmmStatus::OrderBookOnly => 5u64,
            AmmStatus::SwapOnly => 6u64,
            AmmStatus::WaitingTrade => 7u64,
        }
    }

    /// Whether a stored status word denotes any initialized status.
    pub fn valid_status(status: u64) -> (r: bool)
        ensures
            r == (1 <= status <= 7),
    {
        1 <= status && status <= 7
    }

    pub fn deposit_permission(&self) -> (r: bool)
        ensures
            r == spec_deposit_permission(*self),
    {
        match *self {
            AmmStatus::Uninitialized => false,
            AmmStatus::Initialized => true,
            AmmStatus::Disabled => false,
            AmmStatus::WithdrawOnly => false,
            AmmStatus::LiquidityOnly => true,
            AmmStatus::OrderBookOnly => true,
            AmmStatus::SwapOnly => true,
            AmmStatus::WaitingTrade => true,
        }
    }

    pub fn withdraw_permission(&self) -> (r: bool)
        ensures
            r == spec_withdraw_permission(*self),
    {
        match *self {
            AmmStatus::Uninitialized => false,
            AmmStatus::Initialized => true,
            AmmStatus::Disabled => false,
            AmmStatus::WithdrawOnly => true,
            AmmStatus::LiquidityOnly => true,
            AmmStatus::OrderBookOnly => true,
            AmmStatus::SwapOnly => true,
            AmmStatus::WaitingTrade => true,
        }
    }

    /// Whether swaps are allowed in this status.
    pub fn swap_permission(&self) -> (r: bool)
        ensures
            r == spec_swap_permission(*self),
    {
        match *self {
            AmmStatus::Uninitialized => false,
            AmmStatus::Initialized => true,
            AmmStatus::Disabled => false,
            AmmStatus::WithdrawOnly => false,
            AmmStatus::LiquidityOnly => false,
            AmmStatus::OrderBookOnly => false,
            AmmStatus::SwapOnly => true,
            AmmStatus::WaitingTrade => true,
        }
    }

    /// Whether the pool keeps orders resting on the linked order book in
    /// this status, so that quoting must replay the book's event queue.
    pub fn orderbook_permission(&self) -> (r: bool)
        ensures
            r == spec_orderbook_permission(*self),
    {
        match *self {
            AmmStatus::Uninitialized => false,
            AmmStatus::Initialized => true,
            AmmStatus::Disabled => false,
            AmmStatus::WithdrawOnly => false,
            AmmStatus::LiquidityOnly => false,
            AmmStatus::OrderBookOnly => true,
            AmmStatus::SwapOnly => false,
            AmmStatus::WaitingTrade => false,
        }
    }
}

pub open spec fn spec_status_from_u64(status: u64) -> AmmStatus {
    if status == 0 {
        AmmStatus::Uninitialized
    } else if status == 1 {
        AmmStatus::Initialized
    } else if status == 2 {
        AmmStatus::Disabled
    } else if status == 3 {
        AmmStatus::WithdrawOnly
    } else if status == 4 {
        AmmStatus::LiquidityOnly
    } else if status == 5 {
        AmmStatus::OrderBookOnly
    } else if status == 6 {
        AmmStatus::SwapOnly
    } else {
        AmmStatus::WaitingTrade
    }
}

pub open spec fn spec_status_into_u64(s: AmmStatus) -> u64 {
    match s {
        AmmStatus::Uninitialized => 0u64,
        AmmStatus::Initialized => 1u64,
        AmmStatus::Disabled => 2u64,
        AmmStatus::WithdrawOnly => 3u64,
        AmmStatus::LiquidityOnly => 4u64,
        AmmStatus::OrderBookOnly => 5u64,
        AmmStatus::SwapOnly => 6u64,
        AmmStatus::WaitingTrade => 7u64,
    }
}

pub open spec fn spec_deposit_permission(s: AmmStatus) -> bool {
    s == AmmStatus::Initialized || s == AmmStatus::LiquidityOnly || s == AmmStatus::OrderBookOnly
        || s == AmmStatus::SwapOnly || s == AmmStatus::WaitingTrade
}

pub open spec fn spec_withdraw_permission(s: AmmStatus) -> bool {
    s == AmmStatus::Initialized || s == AmmStatus::WithdrawOnly || s == AmmStatus::LiquidityOnly
        || s == AmmStatus::OrderBookOnly || s == AmmStatus::SwapOnly || s == AmmStatus::WaitingTrade
}

pub open spec fn spec_swap_permission(s: AmmStatus) -> bool {
    s == AmmStatus::Initialized || s == AmmStatus::SwapOnly || s == AmmStatus::WaitingTrade
}

pub open spec fn spec_orderbook_permission(s: AmmStatus) -> bool {
    s == AmmStatus::Initialized || s == AmmStatus::OrderBookOnly
}

pub const TEN_THOUSAND: u64 = 10000;

/// The pool's fee schedule: four numerator/denominator pairs.
#[derive(Clone, Copy, PartialEq, Eq, Structural, Debug)]
pub struct Fees {
    pub min_separate_numerator: u64,
    pub min_separate_denominator: u64,
    pub trade_fee_numerator: u64,
    pub trade_fee_denominator: u64,
    pub pnl_numerator: u64,
    pub pnl_denominator: u64,
    pub swap_fee_numerator: u64,
    pub swap_fee_denominator: u64,
}

/// A fee fraction is reasonable when it is a proper fraction: numerator
/// strictly below a nonzero denominator.
pub fn validate_fraction(numerator: u64, denominator: u64) -> (r: Result<(), Error>)
    ensures
        r is Ok <==> numerator < denominator,
        r is Err ==> r == Err::<(), Error>(Error::InvalidFee),
{
    if numerator >= denominator || denominator == 0 {
        Err(Error::InvalidFee)
    } else {
        Ok(())
    }
}

pub open spec fn spec_fees_valid(f: Fees) -> bool {
    f.min_separate_numerator < f.min_separate_denominator && f.trade_fee_numerator
        < f.trade_fee_denominator && f.pnl_numerator < f.pnl_denominator && f.swap_fee_numerator
        < f.swap_fee_denominator
}

impl Fees {
    /// Validate that every fee is a proper fraction.
    pub fn validate(&self) -> (r: Result<(), Error>)
        ensures
            r is Ok <==> spec_fees_valid(*self),
            r is Err ==> r == Err::<(), Error>(Error::InvalidFee),
    {
        let r = validate_fraction(self.min_separate_numerator, self.min_separate_denominator);
        if r.is_err() {
            return r;
        }
        let r = validate_fraction(self.trade_fee_numerator, self.trade_fee_denominator);
        if r.is_err() {
            return r;
        }
        let r = validate_fraction(self.pnl_numerator, self.pnl_denominator);
        if r.is_err() {
            return r;
        }
        let r = validate_fraction(self.swap_fee_numerator, self.swap_fee_denominator);
        if r.is_err() {
            return r;
        }
        Ok(())
    }

    /// The protocol's stock fee schedule.
    pub fn initialize(&mut self) -> (r: Result<(), Error>)
        ensures
            r is Ok,
            final(self).min_separate_numerator == 5,
            final(self).min_separate_denominator == TEN_THOUSAND,
            final(self).trade_fee_numerator == 25,
            final(self).trade_fee_denominator == TEN_THOUSAND,
            final(self).pnl_numerator == 12,
            final(self).pnl_denominator == 100,
            final(self).swap_fee_numerator == 25,
            final(self).swap_fee_denominator == TEN_THOUSAND,
    {
        self.min_separate_numerator = 5;
        self.min_separate_denominator = TEN_THOUSAND;
        self.trade_fee_numerator = 25;
        self.trade_fee_denominator = TEN_THOUSAND;
        self.pnl_numerator = 12;
        self.pnl_denominator = 100;
        self.swap_fee_numerator = 25;
        self.swap_fee_denominator = TEN_THOUSAND;
        Ok(())
    }

    /// Reads a fee schedule from its 64-byte packed form.
    pub fn unpack_from_slice(input: &[u8]) -> (r: Result<Fees, Error>)
        ensures
            r is Ok <==> input@.len() == 64,
            r matches Ok(f) ==> f == spec_fees_at(input@, 0),
        // The stored form is eight 64-bit words.
    {
        if input.len() != 64 {
            return Err(Error::InvalidAccountData);
        }
        Ok(Fees {
            min_separate_numerator: read_u64_le(input, 0),
            min_separate_denominator: read_u64_le(input, 8),
            trade_fee_numerator: read_u64_le(input, 16),
            trade_fee_denominator: read_u64_le(input, 24),
            pnl_numerator: read_u64_le(input, 32),
            pnl_denominator: read_u64_le(input, 40),
            swap_fee_numerator: read_u64_le(input, 48),
            swap_fee_denominator: read_u64_le(input, 56),
        })
    }
}

/// The fee schedule stored at byte `off` of `s`.
pub open spec fn spec_fees_at(s: Seq<u8>, off: int) -> Fees {
    Fees {
        min_separate_numerator: spec_word_at(s, off),
        min_separate_denominator: spec_word_at(s, off + 8),
        trade_fee_numerator: spec_word_at(s, off + 16),
        trade_fee_denominator: spec_word_at(s, off + 24),
        pnl_numerator: spec_word_at(s, off + 32),
        pnl_denominator: spec_word_at(s, off + 40),
        swap_fee_numerator: spec_word_at(s, off + 48),
        swap_fee_denominator: spec_word_at(s, off + 56),
    }
}

/// The pool's running statistics.  Interior padding in the stored layout is
/// validated by length and not retained.
#[derive(Clone, Copy, PartialEq, Eq, Structural, Debug)]
pub struct StateData {
    pub need_take_pnl_coin: u64,
    pub need_take_pnl_pc: u64,
    pub total_pnl_pc: u64,
    pub total_pnl_coin: u64,
    pub pool_open_time: u64,
    pub orderbook_to_init_time: u64,
    pub swap_coin_in_amount: u128,
    pub swap_pc_out_amount: u128,
    pub swap_acc_pc_fee: u64,
    pub swap_pc_in_amount: u128,
    pub swap_coin_out_amount: u128,
    pub swap_acc_coin_fee: u64,
}

impl StateData {
    /// A fresh pool's statistics: everything zero but the open time.
    pub fn initialize(&mut self, open_time: u64) -> (r: Result<(), Error>)
        ensures
            r is Ok,
            *final(self) == (StateData {
                need_take_pnl_coin: 0u64,
                need_take_pnl_pc: 0u64,
                total_pnl_pc: 0u64,
                total_pnl_coin: 0u64,
                pool_open_time: open_time,
                orderbook_to_init_time: 0u64,
                swap_coin_in_amount: 0u128,
                swap_pc_out_amount: 0u128,
                swap_acc_pc_fee: 0u64,
                swap_pc_in_amount: 0u128,
                swap_coin_out_amount: 0u128,
                swap_acc_coin_fee: 0u64,
            }),
    {
        self.need_take_pnl_coin = 0;
        self.need_take_pnl_pc = 0;
        self.total_pnl_pc = 0;
        self.total_pnl_coin = 0;
        self.pool_open_time = open_time;
        self.orderbook_to_init_time = 0;
        self.swap_coin_in_amount = 0;
        self.swap_pc_out_amount = 0;
        self.swap_acc_pc_fee = 0;
        self.swap_pc_in_amount = 0;
        self.swap_coin_out_amount = 0;
        self.swap_acc_coin_fee = 0;
        Ok(())
    }
}

/// The statistics block stored at byte `off` of `s`.
pub open spec fn spec_state_data_at(s: Seq<u8>, off: int) -> StateData {
    StateData {
        need_take_pnl_coin: spec_word_at(s, off),
        need_take_pnl_pc: spec_word_at(s, off + 8),
        total_pnl_pc: spec_word_at(s, off + 16),
        total_pnl_coin: spec_word_at(s, off + 24),
        pool_open_time: spec_word_at(s, off + 32),
        orderbook_to_init_time: spec_word_at(s, off + 56),
        swap_coin_in_amount: spec_u128_at(s, off + 64),
        swap_pc_out_amount: spec_u128_at(s, off + 80),
        swap_acc_pc_fee: spec_word_at(s, off + 96),
        swap_pc_in_amount: spec_u128_at(s, off + 104),
        swap_coin_out_amount: spec_u128_at(s, off + 120),
        swap_acc_coin_fee: spec_word_at(s, off + 136),
    }
}

/// The AMM pool record: status, sizing parameters, fees, statistics, and the
/// addresses of its vaults, mints and linked market.  752 bytes on ledger;
/// padding words are validated by length and not retained.
#[derive(Clone, Copy, PartialEq, Eq, Structural, Debug)]
pub struct AmmInfo {
    pub status: u64,
    pub nonce: u64,
    pub order_num: u64,
    pub depth: u64,
    pub coin_decimals: u64,
    pub pc_decimals: u64,
    pub state: u64,
    pub reset_flag: u64,
    pub min_size: u64,
    pub vol_max_cut_ratio: u64,
    pub amount_wave: u64,
    pub coin_lot_size: u64,
    pub pc_lot_size: u64,
    pub min_price_multiplier: u64,
    pub max_price_multiplier: u64,
    pub sys_decimal_value: u64,
    pub fees: Fees,
    pub state_data: StateData,
    pub coin_vault: Address,
    pub pc_vault: Address,
    pub coin_vault_mint: Address,
    pub pc_vault_mint: Address,
    pub lp_mint: Address,
    pub open_orders: Address,
    pub market: Address,
    pub market_program: Address,
    pub target_orders: Address,
    pub amm_owner: Address,
    pub lp_amount: u64,
    pub client_order_id: u64,
    pub recent_epoch: u64,
}

/// The length of a pool account's data.
pub const AMM_INFO_LEN: usize = 752;

/// The pool record stored at the start of `s`.
pub open spec fn spec_amm_info_at(s: Seq<u8>) -> AmmInfo {
    AmmInfo {
        status: spec_word_at(s, 0),
        nonce: spec_word_at(s, 8),
        order_num: spec_word_at(s, 16),
        depth: spec_word_at(s, 24),
        coin_decimals: spec_word_at(s, 32),
        pc_decimals: spec_word_at(s, 40),
        state: spec_word_at(s, 48),
        reset_flag: spec_word_at(s, 56),
        min_size: spec_word_at(s, 64),
        vol_max_cut_ratio: spec_word_at(s, 72),
        amount_wave: spec_word_at(s, 80),
        coin_lot_size: spec_word_at(s, 88),
        pc_lot_size: spec_word_at(s, 96),
        min_price_multiplier: spec_word_at(s, 104),
        max_price_multiplier: spec_word_at(s, 112),
        sys_decimal_value: spec_word_at(s, 120),
        fees: spec_fees_at(s, 128),
        state_data: spec_state_data_at(s, 192),
        coin_vault: spec_address_at(s, 336),
        pc_vault: spec_address_at(s, 368),
        coin_vault_mint: spec_address_at(s, 400),
        pc_vault_mint: spec_address_at(s, 432),
        lp_mint: spec_address_at(s, 464),
        open_orders: spec_address_at(s, 496),
        market: spec_address_at(s, 528),
        market_program: spec_address_at(s, 560),
        target_orders: spec_address_at(s, 592),
        amm_owner: spec_address_at(s, 688),
        lp_amount: spec_word_at(s, 720),
        client_order_id: spec_word_at(s, 728),
        recent_epoch: spec_word_at(s, 736),
    }
}

impl AmmInfo {
    /// Loads a pool record from its account, rejecting a wrong owning
    /// program, a wrong length and an uninitialized status.  All three are
    /// hard errors: an uninitialized pool is a caller bug, never a skip.
    pub fn load_checked(account: &AccountData, program_id: &Address) -> (r: Result<AmmInfo, Error>)
        ensures
            account.owner != *program_id ==> r == Err::<AmmInfo, Error>(Error::InvalidAmmAccountOwner),
            account.owner == *program_id && account.data@.len() != AMM_INFO_LEN ==> r == Err::<
                AmmInfo,
                Error,
            >(Error::ExpectedAccount),
            account.owner == *program_id && account.data@.len() == AMM_INFO_LEN ==> r == (if spec_word_at(
                account.data@,
                0,
            ) == 0 {
                Err::<AmmInfo, Error>(Error::InvalidStatus)
            } else {
                Ok::<AmmInfo, Error>(spec_amm_info_at(account.data@))
            }),
    {
        if account.owner != *program_id {
            return Err(Error::InvalidAmmAccountOwner);
        }
        if account.data.len() != AMM_INFO_LEN {
            return Err(Error::ExpectedAccount);
        }
        let data = account.data.as_slice();
        let amm = AmmInfo {
            status: read_u64_le(data, 0),
            nonce: read_u64_le(data, 8),
            order_num: read_u64_le(data, 16),
            depth: read_u64_le(data, 24),
            coin_decimals: read_u64_le(data, 32),
            pc_decimals: read_u64_le(data, 40),
            state: read_u64_le(data, 48),
            reset_flag: read_u64_le(data, 56),
            min_size: read_u64_le(data, 64),
            vol_max_cut_ratio: read_u64_le(data, 72),
            amount_wave: read_u64_le(data, 80),
            coin_lot_size: read_u64_le(data, 88),
            pc_lot_size: read_u64_le(data, 96),
            min_price_multiplier: read_u64_le(data, 104),
            max_price_multiplier: read_u64_le(data, 112),
            sys_decimal_value: read_u64_le(data, 120),
            fees: Fees {
                min_separate_numerator: read_u64_le(data, 128),
                min_separate_denominator: read_u64_le(data, 136),
                trade_fee_numerator: read_u64_le(data, 144),
                trade_fee_denominator: read_u64_le(data, 152),
                pnl_numerator: read_u64_le(data, 160),
                pnl_denominator: read_u64_le(data, 168),
                swap_fee_numerator: read_u64_le(data, 176),
                swap_fee_denominator: read_u64_le(data, 184),
            },
            state_data: StateData {
                need_take_pnl_coin: read_u64_le(data, 192),
                need_take_pnl_pc: read_u64_le(data, 200),
                total_pnl_pc: read_u64_le(data, 208),
                total_pnl_coin: read_u64_le(data, 216),
                pool_open_time: read_u64_le(data, 224),
                orderbook_to_init_time: read_u64_le(data, 248),
                swap_coin_in_amount: read_u128_le(data, 256),
                swap_pc_out_amount: read_u128_le(data, 272),
                swap_acc_pc_fee: read_u64_le(data, 288),
                swap_pc_in_amount: read_u128_le(data, 296),
                swap_coin_out_amount: read_u128_le(data, 312),
                swap_acc_coin_fee: read_u64_le(data, 328),
            },
            coin_vault: read_address(data, 336),
            pc_vault: read_address(data, 368),
            coin_vault_mint: read_address(data, 400),
            pc_vault_mint: read_address(data, 432),
            lp_mint: read_address(data, 464),
            open_orders: read_address(data, 496),
            market: read_address(data, 528),
            market_program: read_address(data, 560),
            target_orders: read_address(data, 592),
            amm_owner: read_address(data, 688),
            lp_amount: read_u64_le(data, 720),
            client_order_id: read_u64_le(data, 728),
            recent_epoch: read_u64_le(data, 736),
        };
        if amm.status == 0 {
            return Err(Error::InvalidStatus);
        }
        Ok(amm)
    }
}

/// The flag bits an order-book account can carry.
#[derive(Clone, Copy, PartialEq, Eq, Structural, Debug)]
pub enum AccountFlag {
    Initialized,
    Market,
    OpenOrders,
    RequestQueue,
    EventQueue,
    Bids,
    Asks,
    Disabled,
    Closed,
    Permissioned,
    CrankAuthorityRequired,
}

impl AccountFlag {
    /// The bit this flag occupies in a stored flag word.
    pub fn mask(&self) -> (r: u64)
        ensures
            r == spec_flag_mask(*self),
    {
        match *self {
            AccountFlag::Initialized => 0x1u64,
            AccountFlag::Market => 0x2u64,
            AccountFlag::OpenOrders => 0x4u64,
            AccountFlag::RequestQueue => 0x8u64,
            AccountFlag::EventQueue => 0x10u64,
            AccountFlag::Bids => 0x20u64,
            AccountFlag::Asks => 0x40u64,
            AccountFlag::Disabled => 0x80u64,
            AccountFlag::Closed => 0x100u64,
            AccountFlag::Permissioned => 0x200u64,
            AccountFlag::CrankAuthorityRequired => 0x400u64,
        }
    }
}

pub open spec fn spec_flag_mask(f: AccountFlag) -> u64 {
    match f {
        AccountFlag::Initialized => 0x1u64,
        AccountFlag::Market => 0x2u64,
        AccountFlag::OpenOrders => 0x4u64,
        AccountFlag::RequestQueue => 0x8u64,
        AccountFlag::EventQueue => 0x10u64,
        AccountFlag::Bids => 0x20u64,
        AccountFlag::Asks => 0x40u64,
        AccountFlag::Disabled => 0x80u64,
        AccountFlag::Closed => 0x100u64,
        AccountFlag::Permissioned => 0x200u64,
        AccountFlag::CrankAuthorityRequired => 0x400u64,
    }
}

/// The defined account-flag bits form the contiguous range below 0x800, so a
/// stored word is a valid flag set exactly when it is below 0x800.
pub open spec fn spec_flags_word_valid(flags: u64) -> bool {
    flags < 0x800
}

/// A market account's five-byte head marker.
pub open spec fn spec_head_padding() -> Seq<u8> {
    seq![115u8, 101u8, 114u8, 117u8, 109u8]
}

/// A market account's seven-byte tail marker.
pub open spec fn spec_tail_padding() -> Seq<u8> {
    seq![112u8, 97u8, 100u8, 100u8, 105u8, 110u8, 103u8]
}

/// Whether `s` carries the head and tail padding markers around a body of at
/// least zero bytes.
pub open spec fn spec_padding_ok(s: Seq<u8>) -> bool {
    &&& s.len() >= 12
    &&& s.subrange(0, 5) == spec_head_padding()
    &&& s.subrange(s.len() - 7, s.len() as int) == spec_tail_padding()
}

/// Checks the head and tail padding markers of an order-book account.
pub fn check_account_padding(data: &[u8]) -> (r: bool)
    ensures
        r == spec_padding_ok(data@),
{
    let n = data.len();
    if n < 12 {
        proof {
            assert(!spec_padding_ok(data@));
        }
        return false;
    }
    let head_ok = data[0] == 115 && data[1] == 101 && data[2] == 114 && data[3] == 117 && data[4]
        == 109;
    let tail_ok = data[n - 7] == 112 && data[n - 6] == 97 && data[n - 5] == 100 && data[n - 4]
        == 100 && data[n - 3] == 105 && data[n - 2] == 110 && data[n - 1] == 103;
    proof {
        let s = data@;
        if head_ok {
            assert(s.subrange(0, 5) =~= spec_head_padding());
        } else {
            assert(s.subrange(0, 5) != spec_head_padding()) by {
                if s.subrange(0, 5) == spec_head_padding() {
                    assert(s.subrange(0, 5)[0] == s[0]);
                    assert(s.subrange(0, 5)[1] == s[1]);
                    assert(s.subrange(0, 5)[2] == s[2]);
                    assert(s.subrange(0, 5)[3] == s[3]);
                    assert(s.subrange(0, 5)[4] == s[4]);
                }
            }
        }
        if tail_ok {
            assert(s.subrange(s.len() - 7, s.len() as int) =~= spec_tail_padding());
        } else {
            assert(s.subrange(s.len() - 7, s.len() as int) != spec_tail_padding()) by {
                let t = s.subrange(s.len() - 7, s.len() as int);
                if t == spec_tail_padding() {
                    assert(t[0] == s[s.len() - 7]);
                    assert(t[1] == s[s.len() - 6]);
                    assert(t[2] == s[s.len() - 5]);
                    assert(t[3] == s[s.len() - 4]);
                    assert(t[4] == s[s.len() - 3]);
                    assert(t[5] == s[s.len() - 2]);
                    assert(t[6] == s[s.len() - 1]);
                }
            }
        }
    }
    head_ok && tail_ok
}

/// The order-book market record: 376 bytes between the padding markers.
#[derive(Clone, Copy, PartialEq, Eq, Structural, Debug)]
pub struct MarketState {
    pub account_flags: u64,
    pub own_address: Address,
    pub vault_signer_nonce: u64,
    pub coin_mint: Address,
    pub pc_mint: Address,
    pub coin_vault: Address,
    pub coin_deposits_total: u64,
    pub coin_fees_accrued: u64,
    pub pc_vault: Address,
    pub pc_deposits_total: u64,
    pub pc_fees_accrued: u64,
    pub pc_dust_threshold: u64,
    pub req_q: Address,
    pub event_q: Address,
    pub bids: Address,
    pub asks: Address,
    pub coin_lot_size: u64,
    pub pc_lot_size: u64,
    pub fee_rate_bps: u64,
    pub referrer_rebates_accrued: u64,
}

/// The market record's length between the padding markers.
pub const MARKET_STATE_LEN: usize = 376;

/// The market record's length including the authority extension, for
/// permissioned markets.
pub const MARKET_STATE_V2_LEN: usize = 1464;

/// The market record stored at byte `off` of `s`.
pub open spec fn spec_market_state_at(s: Seq<u8>, off: int) -> MarketState {
    MarketState {
        account_flags: spec_word_at(s, off),
        own_address: spec_address_at(s, off + 8),
        vault_signer_nonce: spec_word_at(s, off + 40),
        coin_mint: spec_address_at(s, off + 48),
        pc_mint: spec_address_at(s, off + 80),
        coin_vault: spec_address_at(s, off + 112),
        coin_deposits_total: spec_word_at(s, off + 144),
        coin_fees_accrued: spec_word_at(s, off + 152),
        pc_vault: spec_address_at(s, off + 160),
        pc_deposits_total: spec_word_at(s, off + 192),
        pc_fees_accrued: spec_word_at(s, off + 200),
        pc_dust_threshold: spec_word_at(s, off + 208),
        req_q: spec_address_at(s, off + 216),
        event_q: spec_address_at(s, off + 248),
        bids: spec_address_at(s, off + 280),
        asks: spec_address_at(s, off + 312),
        coin_lot_size: spec_word_at(s, off + 344),
        pc_lot_size: spec_word_at(s, off + 352),
        fee_rate_bps: spec_word_at(s, off + 360),
        referrer_rebates_accrued: spec_word_at(s, off + 368),
    }
}

/// Reads the market record at byte `off` of `data`.
fn read_market_state(data: &[u8], off: usize) -> (r: MarketState)
    requires
        off + MARKET_STATE_LEN <= data@.len(),
    ensures
        r == spec_market_state_at(data@, off as int),
{
    let n = data.len();
    MarketState {
        account_flags: read_u64_le(data, off),
        own_address: read_address(data, off + 8),
        vault_signer_nonce: read_u64_le(data, off + 40),
        coin_mint: read_address(data, off + 48),
        pc_mint: read_address(data, off + 80),
        coin_vault: read_address(data, off + 112),
        coin_deposits_total: read_u64_le(data, off + 144),
        coin_fees_accrued: read_u64_le(data, off + 152),
        pc_vault: read_address(data, off + 160),
        pc_deposits_total: read_u64_le(data, off + 192),
        pc_fees_accrued: read_u64_le(data, off + 200),
        pc_dust_threshold: read_u64_le(data, off + 208),
        req_q: read_address(data, off + 216),
        event_q: read_address(data, off + 248),
        bids: read_address(data, off + 280),
        asks: read_address(data, off + 312),
        coin_lot_size: read_u64_le(data, off + 344),
        pc_lot_size: read_u64_le(data, off + 352),
        fee_rate_bps: read_u64_le(data, off + 360),
        referrer_rebates_accrued: read_u64_le(data, off + 368),
    }
}

/// Whether a plain market's flag word passes its flag check.
pub open spec fn spec_market_flags_ok(flags: u64, allow_disabled: bool) -> bool {
    if allow_disabled {
        flags == 0x3 || flags == 0x83
    } else {
        flags == 0x3
    }
}

/// Whether a permissioned market's flag word passes its flag check.
pub open spec fn spec_market_v2_flags_ok(flags: u64, allow_disabled: bool) -> bool {
    if allow_disabled {
        flags == 0x203 || flags == 0x603 || flags == 0x283 || flags == 0x683
    } else {
        flags == 0x203 || flags == 0x603
    }
}

/// [`MarketState::load_checked`] as a value: the market record when the
/// owning program, padding markers, length and flags all check out,
/// [`Error::InvalidLogic`] otherwise.
pub open spec fn spec_market_state_load(account: AccountData, program_id: Address, allow_disabled: bool) -> Result<MarketState, Error> {
    if account.owner != program_id {
        Err(Error::InvalidLogic)
    } else if !spec_padding_ok(account.data@) {
        Err(Error::InvalidLogic)
    } else if account.data@.len() != MARKET_STATE_LEN + 12 {
        Err(Error::InvalidLogic)
    } else {
        let m = spec_market_state_at(account.data@, 5);
        if spec_flags_word_valid(m.account_flags) && spec_market_flags_ok(
            m.account_flags,
            allow_disabled,
        ) {
            Ok(m)
        } else {
            Err(Error::InvalidLogic)
        }
    }
}

/// [`MarketStateV2::load_checked`] as a value.
pub open spec fn spec_market_state_v2_load(account: AccountData, program_id: Address, allow_disabled: bool) -> Result<MarketStateV2, Error> {
    if account.owner != program_id {
        Err(Error::InvalidLogic)
    } else if !spec_padding_ok(account.data@) {
        Err(Error::InvalidLogic)
    } else if account.data@.len() != MARKET_STATE_V2_LEN + 12 {
        Err(Error::InvalidLogic)
    } else {
        let m = MarketStateV2 {
            inner: spec_market_state_at(account.data@, 5),
            open_orders_authority: spec_address_at(account.data@, 381),
            prune_authority: spec_address_at(account.data@, 413),
            consume_events_authority: spec_address_at(account.data@, 445),
        };
        if spec_flags_word_valid(m.inner.account_flags) && spec_market_v2_flags_ok(
            m.inner.account_flags,
            allow_disabled,
        ) {
            Ok(m)
        } else {
            Err(Error::InvalidLogic)
        }
    }
}

/// [`Market::account_flags`] as a value: the flag word after the head
/// marker, when present and valid.
pub open spec fn spec_account_flags(account_data: Seq<u8>) -> Result<u64, Error> {
    if account_data.len() < 13 {
        Err(Error::InvalidLogic)
    } else if !spec_flags_word_valid(spec_word_at(account_data, 5)) {
        Err(Error::InvalidLogic)
    } else {
        Ok(spec_word_at(account_data, 5))
    }
}

/// [`Market::load_checked`] as a value: dispatch on the permissioned bit,
/// then the matching loader, handing back the plain record either way.
pub open spec fn spec_market_load(account: AccountData, program_id: Address, allow_disabled: bool) -> Result<MarketState, Error> {
    match spec_account_flags(account.data@) {
        Err(e) => Err(e),
        Ok(flags) => if flags / 0x200 % 2 == 1 {
            match spec_market_state_v2_load(account, program_id, allow_disabled) {
                Ok(m) => Ok(m.inner),
                Err(e) => Err(e),
            }
        } else {
            spec_market_state_load(account, program_id, allow_disabled)
        },
    }
}

impl MarketState {
    /// The flag check of a plain market: exactly initialized-and-market,
    /// optionally also disabled.
    pub fn check_flags(&self, allow_disabled: bool) -> (r: Result<(), Error>)
        ensures
            r is Ok <==> (spec_flags_word_valid(self.account_flags) && spec_market_flags_ok(
                self.account_flags,
                allow_disabled,
            )),
            r is Err ==> r == Err::<(), Error>(Error::InvalidLogic),
    {
        if self.account_flags >= 0x800 {
            return Err(Error::InvalidLogic);
        }
        if allow_disabled {
            if self.account_flags != 0x3 && self.account_flags != 0x83 {
                return Err(Error::InvalidLogic);
            }
        } else {
            if self.account_flags != 0x3 {
                return Err(Error::InvalidLogic);
            }
        }
        Ok(())
    }

    /// Loads a plain market record from its account: owning program, length,
    /// padding markers and flags all checked.
    pub fn load_checked(account: &AccountData, program_id: &Address, allow_disabled: bool) -> (r:
        Result<MarketState, Error>)
        ensures
            r == spec_market_state_load(*account, *program_id, allow_disabled),
    {
        if account.owner != *program_id {
            return Err(Error::InvalidLogic);
        }
        let data = account.data.as_slice();
        if !check_account_padding(data) {
            return Err(Error::InvalidLogic);
        }
        if data.len() != MARKET_STATE_LEN + 12 {
            return Err(Error::InvalidLogic);
        }
        let m = read_market_state(data, 5);
        match m.check_flags(allow_disabled) {
            Ok(()) => Ok(m),
            Err(e) => Err(e),
        }
    }
}

/// The permissioned market record: the plain record plus three authorities.
/// The trailing reserved bytes are validated by length and not retained.
#[derive(Clone, Copy, PartialEq, Eq, Structural, Debug)]
pub struct MarketStateV2 {
    pub inner: MarketState,
    pub open_orders_authority: Address,
    pub prune_authority: Address,
    pub consume_events_authority: Address,
}

impl MarketStateV2 {
    /// The flag check of a permissioned market: initialized, market and
    /// permissioned, optionally crank-gated, optionally disabled.
    pub fn check_flags(&self, allow_disabled: bool) -> (r: Result<(), Error>)
        ensures
            r is Ok <==> (spec_flags_word_valid(self.inner.account_flags)
                && spec_market_v2_flags_ok(self.inner.account_flags, allow_disabled)),
            r is Err ==> r == Err::<(), Error>(Error::InvalidLogic),
    {
        let flags = self.inner.account_flags;
        if flags >= 0x800 {
            return Err(Error::InvalidLogic);
        }
        if allow_disabled {
            if flags != 0x203 && flags != 0x603 && flags != 0x283 && flags != 0x683 {
                return Err(Error::InvalidLogic);
            }
        } else {
            if flags != 0x203 && flags != 0x603 {
                return Err(Error::InvalidLogic);
            }
        }
        Ok(())
    }

    /// Loads a permissioned market record from its account.
    pub fn load_checked(account: &AccountData, program_id: &Address, allow_disabled: bool) -> (r:
        Result<MarketStateV2, Error>)
        ensures
            r == spec_market_state_v2_load(*account, *program_id, allow_disabled),
    {
        if account.owner != *program_id {
            return Err(Error::InvalidLogic);
        }
        let data = account.data.as_slice();
        if !check_account_padding(data) {
            return Err(Error::InvalidLogic);
        }
        if data.len() != MARKET_STATE_V2_LEN + 12 {
            return Err(Error::InvalidLogic);
        }
        let m = MarketStateV2 {
            inner: read_market_state(data, 5),
            open_orders_authority: read_address(data, 5 + 376),
            prune_authority: read_address(data, 5 + 408),
            consume_events_authority: read_address(data, 5 + 440),
        };
        match m.check_flags(allow_disabled) {
            Ok(()) => Ok(m),
            Err(e) => Err(e),
        }
    }
}

/// A market account dispatcher: reads the flag word first and loads the
/// permissioned or the plain record accordingly, handing back the plain
/// record either way (the permissioned extension adds only authorities).
pub struct Market;

impl Market {
    /// The flag word sitting after the head marker, validated.
    pub fn account_flags(account_data: &[u8]) -> (r: Result<u64, Error>)
        ensures
            r == spec_account_flags(account_data@),
    {
        if account_data.len() < 13 {
            return Err(Error::InvalidLogic);
        }
        let flags = read_u64_le(account_data, 5);
        if flags >= 0x800 {
            return Err(Error::InvalidLogic);
        }
        Ok(flags)
    }

    /// Loads the market record behind `account`, permissioned or plain.
    pub fn load_checked(account: &AccountData, program_id: &Address, allow_disabled: bool) -> (r:
        Result<MarketState, Error>)
        ensures
            r == spec_market_load(*account, *program_id, allow_disabled),
    {
        let flags = match Self::account_flags(account.data.as_slice()) {
            Ok(f) => f,
            Err(e) => {
                return Err(e);
            },
        };
        if flags / 0x200 % 2 == 1 {
            match MarketStateV2::load_checked(account, program_id, allow_disabled) {
                Ok(m) => Ok(m.inner),
                Err(e) => Err(e),
            }
        } else {
            MarketState::load_checked(account, program_id, allow_disabled)
        }
    }
}

/// The open-orders ledger an AMM keeps on its linked market.  The order and
/// client-id arrays are validated by length and not retained; the engine
/// reads only the pending totals and the identity fields.
#[derive(Clone, Copy, PartialEq, Eq, Structural, Debug)]
pub struct OpenOrders {
    pub account_flags: u64,
    pub market: Address,
    pub owner: Address,
    pub native_coin_free: u64,
    pub native_coin_total: u64,
    pub native_pc_free: u64,
    pub native_pc_total: u64,
    pub free_slot_bits: u128,
    pub is_bid_bits: u128,
    pub referrer_rebates_accrued: u64,
}

/// The open-orders record's length between the padding markers.
pub const OPEN_ORDERS_LEN: usize = 3216;

/// The open-orders record stored at byte `off` of `s`.
pub open spec fn spec_open_orders_at(s: Seq<u8>, off: int) -> OpenOrders {
    OpenOrders {
        account_flags: spec_word_at(s, off),
        market: spec_address_at(s, off + 8),
        owner: spec_address_at(s, off + 40),
        native_coin_free: spec_word_at(s, off + 72),
        native_coin_total: spec_word_at(s, off + 80),
        native_pc_free: spec_word_at(s, off + 88),
        native_pc_total: spec_word_at(s, off + 96),
        free_slot_bits: spec_u128_at(s, off + 104),
        is_bid_bits: spec_u128_at(s, off + 120),
        referrer_rebates_accrued: spec_word_at(s, off + 3208),
    }
}

/// [`OpenOrders::load_checked`] as a value.
pub open spec fn spec_open_orders_load(account: AccountData, market_account_key: Option<Address>, owner_key: Option<Address>, program_id: Address) -> Result<OpenOrders, Error> {
    if account.owner != program_id {
        Err(Error::InvalidLogic)
    } else if !spec_padding_ok(account.data@) {
        Err(Error::InvalidLogic)
    } else if account.data@.len() != OPEN_ORDERS_LEN + 12 {
        Err(Error::InvalidLogic)
    } else {
        let o = spec_open_orders_at(account.data@, 5);
        if o.account_flags != 0x5 {
            Err(Error::InvalidLogic)
        } else if market_account_key matches Some(k) && o.market != k {
            Err(Error::InvalidLogic)
        } else if owner_key matches Some(k) && o.owner != k {
            Err(Error::InvalidLogic)
        } else {
            Ok(o)
        }
    }
}

impl OpenOrders {
    /// Loads an open-orders record: owning program, padding, length, flags
    /// (exactly initialized-and-open-orders) and, when given, the market and
    /// owner identities it must match.
    pub fn load_checked(account: &AccountData, market_account_key: Option<Address>, owner_key: Option<Address>, program_id: &Address) -> (r: Result<OpenOrders, Error>)
        ensures
            r == spec_open_orders_load(*account, market_account_key, owner_key, *program_id),
    {
        if account.owner != *program_id {
            return Err(Error::InvalidLogic);
        }
        let data = account.data.as_slice();
        if !check_account_padding(data) {
            return Err(Error::InvalidLogic);
        }
        if data.len() != OPEN_ORDERS_LEN + 12 {
            return Err(Error::InvalidLogic);
        }
        let o = OpenOrders {
            account_flags: read_u64_le(data, 5),
            market: read_address(data, 5 + 8),
            owner: read_address(data, 5 + 40),
            native_coin_free: read_u64_le(data, 5 + 72),
            native_coin_total: read_u64_le(data, 5 + 80),
            native_pc_free: read_u64_le(data, 5 + 88),
            native_pc_total: read_u64_le(data, 5 + 96),
            free_slot_bits: read_u128_le(data, 5 + 104),
            is_bid_bits: read_u128_le(data, 5 + 120),
            referrer_rebates_accrued: read_u64_le(data, 5 + 3208),
        };
        if o.account_flags != 0x5 {
            return Err(Error::InvalidLogic);
        }
        match market_account_key {
            Some(k) => if o.market != k {
                return Err(Error::InvalidLogic);
            },
            None => {},
        }
        match owner_key {
            Some(k) => if o.owner != k {
                return Err(Error::InvalidLogic);
            },
            None => {},
        }
        Ok(o)
    }
}

/// [`load_serum_market_order`] as a value.
pub open spec fn spec_load_serum_market_order(market_acc: AccountData, open_orders_acc: AccountData, authority_key: Address, amm: AmmInfo, allow_disabled: bool) -> Result<
    (MarketState, OpenOrders),
    Error,
> {
    match spec_market_load(market_acc, amm.market_program, allow_disabled) {
        Err(e) => Err(e),
        Ok(market_state) => match spec_open_orders_load(
            open_orders_acc,
            Some(market_acc.key),
            Some(authority_key),
            amm.market_program,
        ) {
            Err(e) => Err(e),
            Ok(open_orders) => if open_orders.market != market_acc.key {
                Err(Error::InvalidMarket)
            } else if open_orders.owner != authority_key {
                Err(Error::InvalidOwner)
            } else if open_orders_acc.key != amm.open_orders {
                Err(Error::InvalidOpenOrders)
            } else {
                Ok((market_state, open_orders))
            },
        },
    }
}

/// Loads the linked market and the AMM's open-orders ledger together,
/// checking that the ledger belongs to this market, this authority and the
/// pool's recorded open-orders address.
pub fn load_serum_market_order(market_acc: &AccountData, open_orders_acc: &AccountData, authority_key: &Address, amm: &AmmInfo, allow_disabled: bool) -> (r: Result<
    (MarketState, OpenOrders),
    Error,
>)
    ensures
        r == spec_load_serum_market_order(
            *market_acc,
            *open_orders_acc,
            *authority_key,
            *amm,
            allow_disabled,
        ),
{
    let market_state = match Market::load_checked(market_acc, &amm.market_program, allow_disabled) {
        Ok(m) => m,
        Err(e) => {
            return Err(e);
        },
    };
    let open_orders = match OpenOrders::load_checked(
        open_orders_acc,
        Some(market_acc.key),
        Some(*authority_key),
        &amm.market_program,
    ) {
        Ok(o) => o,
        Err(e) => {
            return Err(e);
        },
    };
    if open_orders.market != market_acc.key {
        return Err(Error::InvalidMarket);
    }
    if open_orders.owner != *authority_key {
        return Err(Error::InvalidOwner);
    }
    if open_orders_acc.key != amm.open_orders {
        return Err(Error::InvalidOpenOrders);
    }
    Ok((market_state, open_orders))
}

/// [`unpack_token_account`] as a value: the account's balance and mint when
/// it is owned by the token program and holds an initialized record.  The
/// account is given as its owning program and its data bytes.
pub open spec fn spec_unpack_token_account(account_owner: Address, account_data: Seq<u8>, token_program_id: Address) -> Result<crate::spl::TokenAccountView, Error> {
    if account_owner != token_program_id {
        Err(Error::InvalidSplTokenProgram)
    } else if !(crate::spl::spec_token_account_well_formed(account_data)
        && crate::spl::spec_token_account_initialized(account_data)) {
        Err(Error::ExpectedAccount)
    } else {
        Ok(
            crate::spl::TokenAccountView {
                amount: crate::spl::spec_token_account_amount(account_data),
                mint: crate::spl::spec_token_account_mint(account_data),
            },
        )
    }
}

/// Unpacks a token account after checking it is owned by the token program.
pub fn unpack_token_account(account: &AccountData, token_program_id: &Address) -> (r: Result<
    crate::spl::TokenAccountView,
    Error,
>)
    ensures
        r == spec_unpack_token_account(account.owner, account.data@, *token_program_id),
{
    if account.owner != *token_program_id {
        return Err(Error::InvalidSplTokenProgram);
    }
    match crate::spl::unpack_token_account_checked(account.data.as_slice()) {
        Some(v) => Ok(v),
        None => Err(Error::ExpectedAccount),
    }
}

/// The fee bracket an order-book participant trades in.
#[derive(Clone, Copy, PartialEq, Eq, Structural, Debug)]
pub enum FeeTier {
    Base,
    Srm2,
    Srm3,
    Srm4,
    Srm5,
    Srm6,
    Msrm,
    Stable,
}

/// The fee tier a stored byte denotes, bytes above 7 denoting none.
pub open spec fn spec_fee_tier_from_u8(v: u8) -> Option<FeeTier> {
    if v == 0 {
        Some(FeeTier::Base)
    } else if v == 1 {
        Some(FeeTier::Srm2)
    } else if v == 2 {
        Some(FeeTier::Srm3)
    } else if v == 3 {
        Some(FeeTier::Srm4)
    } else if v == 4 {
        Some(FeeTier::Srm5)
    } else if v == 5 {
        Some(FeeTier::Srm6)
    } else if v == 6 {
        Some(FeeTier::Msrm)
    } else if v == 7 {
        Some(FeeTier::Stable)
    } else {
        None
    }
}

impl FeeTier {
    /// See [`spec_fee_tier_from_u8`].
    pub fn try_from(v: u8) -> (r: Option<FeeTier>)
        ensures
            r == spec_fee_tier_from_u8(v),
    {
        match v {
            0u8 => Some(FeeTier::Base),
            1u8 => Some(FeeTier::Srm2),
            2u8 => Some(FeeTier::Srm3),
            3u8 => Some(FeeTier::Srm4),
            4u8 => Some(FeeTier::Srm5),
            5u8 => Some(FeeTier::Srm6),
            6u8 => Some(FeeTier::Msrm),
            7u8 => Some(FeeTier::Stable),
            _ => None,
        }
    }
}

/// Which side of the book an order sits on.
#[derive(Clone, Copy, PartialEq, Eq, Structural, Debug)]
pub enum Side {
    Bid,
    Ask,
}

/// One raw 88-byte entry of a market's event queue.
#[derive(Clone, Copy, PartialEq, Eq, Structural, Debug)]
pub struct Event {
    pub event_flags: u8,
    pub owner_slot: u8,
    pub fee_tier: u8,
    pub native_qty_released: u64,
    pub native_qty_paid: u64,
    pub native_fee_or_rebate: u64,
    pub order_id: u128,
    pub owner: Address,
    pub client_order_id: u64,
}

/// An event queue entry's length.
pub const EVENT_LEN: usize = 88;

/// The event stored at byte `off` of `s`.
pub open spec fn spec_event_at(s: Seq<u8>, off: int) -> Event {
    Event {
        event_flags: s[off],
        owner_slot: s[off + 1],
        fee_tier: s[off + 2],
        native_qty_released: spec_word_at(s, off + 8),
        native_qty_paid: spec_word_at(s, off + 16),
        native_fee_or_rebate: spec_word_at(s, off + 24),
        order_id: spec_u128_at(s, off + 32),
        owner: spec_address_at(s, off + 48),
        client_order_id: spec_word_at(s, off + 80),
    }
}

/// Reads the event stored at byte `off` of `data`.
pub fn read_event(data: &[u8], off: usize) -> (r: Event)
    requires
        off + EVENT_LEN <= data@.len(),
    ensures
        r == spec_event_at(data@, off as int),
{
    let n = data.len();
    Event {
        event_flags: data[off],
        owner_slot: data[off + 1],
        fee_tier: data[off + 2],
        native_qty_released: read_u64_le(data, off + 8),
        native_qty_paid: read_u64_le(data, off + 16),
        native_fee_or_rebate: read_u64_le(data, off + 24),
        order_id: read_u128_le(data, off + 32),
        owner: read_address(data, off + 48),
        client_order_id: read_u64_le(data, off + 80),
    }
}

/// An event decoded by its flags: a fill of a resting order, or funds
/// released back (an "out" event).
#[derive(Clone, Copy, PartialEq, Eq, Structural, Debug)]
pub enum EventView {
    Fill {
        side: Side,
        maker: bool,
        native_qty_paid: u64,
        native_qty_received: u64,
        native_fee_or_rebate: u64,
        order_id: u128,
        owner: Address,
        owner_slot: u8,
        fee_tier: FeeTier,
        client_order_id: Option<u64>,
    },
    Out {
        side: Side,
        release_funds: bool,
        native_qty_unlocked: u64,
        native_qty_still_locked: u64,
        order_id: u128,
        owner: Address,
        owner_slot: u8,
        client_order_id: Option<u64>,
    },
}

impl EventView {
    /// The side the event concerns.
    pub fn side(&self) -> (r: Side)
        ensures
            r == (match *self {
                EventView::Fill { side, .. } => side,
                EventView::Out { side, .. } => side,
            }),
    {
        match *self {
            EventView::Fill { side, .. } => side,
            EventView::Out { side, .. } => side,
        }
    }
}

/// Whether bit `bit` (a power of two) is set in `flags`.
pub open spec fn spec_flag_bit(flags: u8, bit: u8) -> bool {
    flags / bit % 2 == 1
}

/// The view of an event: a fill may carry only the fill, bid and maker bits;
/// an out event only the out, bid and release bits; anything else, a flag
/// word above 0x1f, or an unknown fee bracket on a fill, is malformed.
pub open spec fn spec_event_view(e: Event) -> Result<EventView, Error> {
    if e.event_flags >= 0x20 {
        Err(Error::InvalidLogic)
    } else {
        let side = if spec_flag_bit(e.event_flags, 4) {
            Side::Bid
        } else {
            Side::Ask
        };
        let client_order_id = if e.client_order_id == 0 {
            None
        } else {
            Some(e.client_order_id)
        };
        if spec_flag_bit(e.event_flags, 1) {
            if spec_flag_bit(e.event_flags, 2) || spec_flag_bit(e.event_flags, 16) {
                Err(Error::InvalidLogic)
            } else {
                match spec_fee_tier_from_u8(e.fee_tier) {
                    None => Err(Error::InvalidLogic),
                    Some(fee_tier) => Ok(EventView::Fill {
                        side,
                        maker: spec_flag_bit(e.event_flags, 8),
                        native_qty_paid: e.native_qty_paid,
                        native_qty_received: e.native_qty_released,
                        native_fee_or_rebate: e.native_fee_or_rebate,
                        order_id: e.order_id,
                        owner: e.owner,
                        owner_slot: e.owner_slot,
                        fee_tier,
                        client_order_id,
                    }),
                }
            }
        } else {
            if spec_flag_bit(e.event_flags, 8) {
                Err(Error::InvalidLogic)
            } else {
                Ok(EventView::Out {
                    side,
                    release_funds: spec_flag_bit(e.event_flags, 16),
                    native_qty_unlocked: e.native_qty_released,
                    native_qty_still_locked: e.native_qty_paid,
                    order_id: e.order_id,
                    owner: e.owner,
                    owner_slot: e.owner_slot,
                    client_order_id,
                })
            }
        }
    }
}

impl Event {
    /// See [`spec_event_view`].
    pub fn as_view(&self) -> (r: Result<EventView, Error>)
        ensures
            r == spec_event_view(*self),
    {
        if self.event_flags >= 0x20 {
            return Err(Error::InvalidLogic);
        }
        let side = if self.event_flags / 4 % 2 == 1 {
            Side::Bid
        } else {
            Side::Ask
        };
        let client_order_id = if self.client_order_id == 0 {
            None
        } else {
            Some(self.client_order_id)
        };
        if self.event_flags / 1 % 2 == 1 {
            if self.event_flags / 2 % 2 == 1 || self.event_flags / 16 % 2 == 1 {
                return Err(Error::InvalidLogic);
            }
            let fee_tier = match FeeTier::try_from(self.fee_tier) {
                Some(f) => f,
                None => {
                    return Err(Error::InvalidLogic);
                },
            };
            Ok(EventView::Fill {
                side,
                maker: self.event_flags / 8 % 2 == 1,
                native_qty_paid: self.native_qty_paid,
                native_qty_received: self.native_qty_released,
                native_fee_or_rebate: self.native_fee_or_rebate,
                order_id: self.order_id,
                owner: self.owner,
                owner_slot: self.owner_slot,
                fee_tier,
                client_order_id,
            })
        } else {
            if self.event_flags / 8 % 2 == 1 {
                return Err(Error::InvalidLogic);
            }
            Ok(EventView::Out {
                side,
                release_funds: self.event_flags / 16 % 2 == 1,
                native_qty_unlocked: self.native_qty_released,
                native_qty_still_locked: self.native_qty_paid,
                order_id: self.order_id,
                owner: self.owner,
                owner_slot: self.owner_slot,
                client_order_id,
            })
        }
    }
}

/// An event queue's header: flags, ring start, live count, sequence number.
#[derive(Clone, Copy, PartialEq, Eq, Structural, Debug)]
pub struct EventQueueHeader {
    pub account_flags: u64,
    pub head: u64,
    pub count: u64,
    pub seq_num: u64,
}

/// The header stored at byte `off` of `s`.
pub open spec fn spec_event_queue_header_at(s: Seq<u8>, off: int) -> EventQueueHeader {
    EventQueueHeader {
        account_flags: spec_word_at(s, off),
        head: spec_word_at(s, off + 8),
        count: spec_word_at(s, off + 16),
        seq_num: spec_word_at(s, off + 24),
    }
}

/// A request queue's header, kept for layout completeness; the engine never
/// replays the request queue.
#[derive(Clone, Copy, PartialEq, Eq, Structural, Debug)]
pub struct RequestQueueHeader {
    pub account_flags: u64,
    pub head: u64,
    pub count: u64,
    pub next_seq_num: u64,
}

/// One raw entry of a market's request queue, kept for layout completeness.
#[derive(Clone, Copy, PartialEq, Eq, Structural, Debug)]
pub struct Request {
    pub request_flags: u8,
    pub owner_slot: u8,
    pub fee_tier: u8,
    pub self_trade_behavior: u8,
    pub max_coin_qty_or_cancel_id: u64,
    pub native_pc_qty_locked: u64,
    pub order_id: u128,
    pub owner: Address,
    pub client_order_id: u64,
}

/// A decoded event queue: its header and the live events in ring order,
/// oldest first.
#[derive(Debug)]
pub struct EventQueue {
    pub header: EventQueueHeader,
    pub events: Vec<Event>,
}

/// Whether an event-queue account's data is well-formed against `market`:
/// right address, padding markers, a whole number of ring words, the
/// initialized-and-event-queue flags, and a live count the ring can hold.
pub open spec fn spec_event_queue_valid(market: MarketState, key: Address, s: Seq<u8>) -> bool {
    let header = spec_event_queue_header_at(s, 5);
    let ring_len = (s.len() - 12 - 32) / 88;
    &&& key == market.event_q
    &&& spec_padding_ok(s)
    &&& (s.len() - 12) % 8 == 0
    &&& s.len() >= 44
    &&& header.account_flags == 0x11
    &&& header.count <= ring_len
    &&& (header.count > 0 ==> ring_len > 0)
}

/// The byte offset of ring slot `i` counted from the queue's head.
pub open spec fn spec_ring_slot_offset(s: Seq<u8>, head: u64, i: int) -> int {
    let ring_len = (s.len() - 12 - 32) / 88;
    5 + 32 + 88 * ((head % (ring_len as u64) + i) % (ring_len as int))
}

/// The live events of a well-formed event-queue account, in ring order.
pub open spec fn spec_event_queue_events(s: Seq<u8>) -> Seq<Event> {
    let header = spec_event_queue_header_at(s, 5);
    Seq::new(
        header.count as nat,
        |i: int| spec_event_at(s, spec_ring_slot_offset(s, header.head, i)),
    )
}

/// Decodes a market's event queue into its live events, oldest first.
/// Refuses the account when its address is not the one the market records
/// ([`Error::WrongEventQueueAccount`]) or its shape is malformed
/// ([`Error::InvalidLogic`]).
#[verifier::loop_isolation(false)]
pub fn load_event_queue(market: &MarketState, account: &AccountData) -> (r: Result<EventQueue, Error>)
    ensures
        r matches Ok(q) ==> {
            &&& spec_event_queue_valid(*market, account.key, account.data@)
            &&& q.header == spec_event_queue_header_at(account.data@, 5)
            &&& q.events@.len() == q.header.count
            &&& forall|i: int|
                0 <= i < q.header.count ==> q.events@[i] == spec_event_at(
                    account.data@,
                    spec_ring_slot_offset(account.data@, q.header.head, i),
                )
        },
        r is Ok <==> spec_event_queue_valid(*market, account.key, account.data@),
        r is Err ==> (r == Err::<EventQueue, Error>(Error::WrongEventQueueAccount) || r == Err::<
            EventQueue,
            Error,
        >(Error::InvalidLogic)),
        account.key != market.event_q ==> r == Err::<EventQueue, Error>(
            Error::WrongEventQueueAccount,
        ),
        account.key == market.event_q && r is Err ==> r == Err::<EventQueue, Error>(
            Error::InvalidLogic,
        ),
        r matches Ok(q) ==> q.events@ == spec_event_queue_events(account.data@),
{
    if account.key != market.event_q {
        return Err(Error::WrongEventQueueAccount);
    }
    let data = account.data.as_slice();
    if !check_account_padding(data) {
        return Err(Error::InvalidLogic);
    }
    let n = data.len();
    if (n - 12) % 8 != 0 {
        return Err(Error::InvalidLogic);
    }
    if n < 44 {
        return Err(Error::InvalidLogic);
    }
    let header = EventQueueHeader {
        account_flags: read_u64_le(data, 5),
        head: read_u64_le(data, 5 + 8),
        count: read_u64_le(data, 5 + 16),
        seq_num: read_u64_le(data, 5 + 24),
    };
    if header.account_flags != 0x11 {
        return Err(Error::InvalidLogic);
    }
    let ring_len = ((n - 44) / 88) as u64;
    if header.count > ring_len {
        return Err(Error::InvalidLogic);
    }
    let mut events: Vec<Event> = Vec::new();
    if header.count > 0 {
        // ring_len > 0 here since count <= ring_len
        let head = header.head % ring_len;
        let count = header.count as usize;
        let mut i: usize = 0;
        while i < count
            invariant
                count == header.count,
                header.count <= ring_len,
                ring_len == (n - 44) / 88,
                ring_len > 0,
                n == account.data@.len(),
                n >= 44,
                head == header.head % ring_len,
                i <= count,
                events@.len() == i,
                forall|k: int|
                    0 <= k < i ==> events@[k] == spec_event_at(
                        account.data@,
                        spec_ring_slot_offset(account.data@, header.head, k),
                    ),
            decreases count - i,
        {
            let slot = ((head + i as u64) % ring_len) as usize;
            let off = 37 + 88 * slot;
            proof {
                assert(slot < ring_len);
                assert(off + 88 <= 37 + 88 * ((n - 44) / 88) as int);
                assert(88 * ((n - 44) / 88) as int <= n - 44) by (nonlinear_arith)
                    requires
                        n >= 44,
                ;
                assert(spec_ring_slot_offset(account.data@, header.head, i as int) == off);
            }
            let e = read_event(data, off);
            events.push(e);
            i = i + 1;
        }
    }
    Ok(EventQueue { header, events })
}

/// One step of the book replay: how a fill belonging to the pool's
/// open-orders identity moves the running quote/base totals.  A maker bid
/// fill spends quote for base; a maker ask fill spends base for quote; any
/// other event leaves the totals alone.  A malformed event or a total leaving
/// the 64-bit range aborts the replay.
pub open spec fn spec_replay_step(e: Event, owner: Address, pc: u64, coin: u64) -> Result<(u64, u64), Error> {
    if e.owner != owner {
        Ok((pc, coin))
    } else {
        match spec_event_view(e) {
            Err(err) => Err(err),
            Ok(v) => match v {
                EventView::Fill { side, maker, native_qty_paid, native_qty_received, .. } => {
                    if side == Side::Bid && maker {
                        if pc < native_qty_paid {
                            Err(Error::CheckedSubOverflow)
                        } else if coin + native_qty_received > u64::MAX {
                            Err(Error::CheckedAddOverflow)
                        } else {
                            Ok((((pc - native_qty_paid) as u64), ((coin + native_qty_received) as u64)))
                        }
                    } else if side == Side::Ask && maker {
                        if coin < native_qty_paid {
                            Err(Error::CheckedSubOverflow)
                        } else if pc + native_qty_received > u64::MAX {
                            Err(Error::CheckedAddOverflow)
                        } else {
                            Ok((((pc + native_qty_received) as u64), ((coin - native_qty_paid) as u64)))
                        }
                    } else {
                        Ok((pc, coin))
                    }
                },
                EventView::Out { .. } => Ok((pc, coin)),
            },
        }
    }
}

/// The book replay over a whole event sequence, oldest first.
pub open spec fn spec_replay(events: Seq<Event>, owner: Address, pc: u64, coin: u64) -> Result<(u64, u64), Error>
    decreases events.len(),
{
    if events.len() == 0 {
        Ok((pc, coin))
    } else {
        match spec_replay_step(events[0], owner, pc, coin) {
            Err(e) => Err(e),
            Ok((pc2, coin2)) => spec_replay(events.skip(1), owner, pc2, coin2),
        }
    }
}

/// Reconstructs the quote/base liquidity resting in the order book: the
/// open-orders pending totals adjusted by every fill event in the queue that
/// belongs to the pool's open-orders identity.
#[verifier::loop_isolation(false)]
pub fn calc_exact_vault_in_serum(open_orders: &OpenOrders, events: &Vec<Event>, amm_open_account_key: &Address) -> (r: Result<(u64, u64), Error>)
    ensures
        r == spec_replay(
            events@,
            *amm_open_account_key,
            open_orders.native_pc_total,
            open_orders.native_coin_total,
        ),
{
    let mut native_pc_total = open_orders.native_pc_total;
    let mut native_coin_total = open_orders.native_coin_total;
    proof {
        assert(events@.skip(0) =~= events@);
    }
    let mut i: usize = 0;
    while i < events.len()
        invariant
            i <= events@.len(),
            spec_replay(events@.skip(i as int), *amm_open_account_key, native_pc_total, native_coin_total)
                == spec_replay(
                events@,
                *amm_open_account_key,
                open_orders.native_pc_total,
                open_orders.native_coin_total,
            ),
        decreases events@.len() - i,
    {
        let e = &events[i];
        proof {
            assert(events@.skip(i as int)[0] == events@[i as int]);
            assert(events@.skip(i as int).skip(1) =~= events@.skip(i as int + 1));
        }
        if e.owner == *amm_open_account_key {
            let view = match e.as_view() {
                Ok(v) => v,
                Err(err) => {
                    return Err(err);
                },
            };
            match view {
                EventView::Fill { side, maker, native_qty_paid, native_qty_received, .. } => {
                    match side {
                        Side::Bid => if maker {
                            native_pc_total = match native_pc_total.checked_sub(native_qty_paid) {
                                Some(v) => v,
                                None => {
                                    return Err(Error::CheckedSubOverflow);
                                },
                            };
                            native_coin_total = match native_coin_total.checked_add(
                                native_qty_received,
                            ) {
                                Some(v) => v,
                                None => {
                                    return Err(Error::CheckedAddOverflow);
                                },
                            };
                        },
                        Side::Ask => if maker {
                            native_coin_total = match native_coin_total.checked_sub(
                                native_qty_paid,
                            ) {
                                Some(v) => v,
                                None => {
                                    return Err(Error::CheckedSubOverflow);
                                },
                            };
                            native_pc_total = match native_pc_total.checked_add(
                                native_qty_received,
                            ) {
                                Some(v) => v,
                                None => {
                                    return Err(Error::CheckedAddOverflow);
                                },
                            };
                        },
                    }
                },
                EventView::Out { .. } => {},
            }
        }
        i = i + 1;
    }
    Ok((native_pc_total, native_coin_total))
}

/// The pool's total tradable reserves when the order book is in play: vault
/// balances plus the replayed book liquidity, minus the profit already
/// earmarked for withdrawal.
pub fn calc_total_without_take_pnl(pc_amount: u64, coin_amount: u64, open_orders: &OpenOrders, amm: &AmmInfo, events: &Vec<Event>, amm_open_account_key: &Address) -> (r: Result<
    (u64, u64),
    Error,
>)
    ensures
        r == spec_calc_total_without_take_pnl(
            pc_amount,
            coin_amount,
            *open_orders,
            *amm,
            events@,
            *amm_open_account_key,
        ),
{
    let (pc_total_in_serum, coin_total_in_serum) = match calc_exact_vault_in_serum(
        open_orders,
        events,
        amm_open_account_key,
    ) {
        Ok(p) => p,
        Err(e) => {
            return Err(e);
        },
    };
    let total_pc_without_take_pnl = match pc_amount.checked_add(pc_total_in_serum) {
        Some(v) => v,
        None => {
            return Err(Error::CheckedAddOverflow);
        },
    };
    let total_pc_without_take_pnl = match total_pc_without_take_pnl.checked_sub(
        amm.state_data.need_take_pnl_pc,
    ) {
        Some(v) => v,
        None => {
            return Err(Error::CheckedSubOverflow);
        },
    };
    let total_coin_without_take_pnl = match coin_amount.checked_add(coin_total_in_serum) {
        Some(v) => v,
        None => {
            return Err(Error::CheckedAddOverflow);
        },
    };
    let total_coin_without_take_pnl = match total_coin_without_take_pnl.checked_sub(
        amm.state_data.need_take_pnl_coin,
    ) {
        Some(v) => v,
        None => {
            return Err(Error::CheckedSubOverflow);
        },
    };
    Ok((total_pc_without_take_pnl, total_coin_without_take_pnl))
}

/// [`calc_total_without_take_pnl`] as a value.
pub open spec fn spec_calc_total_without_take_pnl(pc_amount: u64, coin_amount: u64, open_orders: OpenOrders, amm: AmmInfo, events: Seq<Event>, amm_open_account_key: Address) -> Result<
    (u64, u64),
    Error,
> {
    match spec_replay(events, amm_open_account_key, open_orders.native_pc_total, open_orders.native_coin_total) {
        Err(e) => Err(e),
        Ok((pc_serum, coin_serum)) => {
            if pc_amount + pc_serum > u64::MAX {
                Err(Error::CheckedAddOverflow)
            } else if pc_amount + pc_serum < amm.state_data.need_take_pnl_pc {
                Err(Error::CheckedSubOverflow)
            } else if coin_amount + coin_serum > u64::MAX {
                Err(Error::CheckedAddOverflow)
            } else if coin_amount + coin_serum < amm.state_data.need_take_pnl_coin {
                Err(Error::CheckedSubOverflow)
            } else {
                Ok(
                    (
                        ((pc_amount + pc_serum - amm.state_data.need_take_pnl_pc) as u64),
                        ((coin_amount + coin_serum - amm.state_data.need_take_pnl_coin) as u64),
                    ),
                )
            }
        },
    }
}

/// The pool's total tradable reserves when the order book is not in play:
/// vault balances minus the earmarked profit.
pub fn calc_total_without_take_pnl_no_orderbook(pc_amount: u64, coin_amount: u64, amm: &AmmInfo) -> (r: Result<(u64, u64), Error>)
    ensures
        r == (if pc_amount < amm.state_data.need_take_pnl_pc {
            Err::<(u64, u64), Error>(Error::ArithmeticOverflow)
        } else if coin_amount < amm.state_data.need_take_pnl_coin {
            Err::<(u64, u64), Error>(Error::ArithmeticOverflow)
        } else {
            Ok::<(u64, u64), Error>(
                (
                    ((pc_amount - amm.state_data.need_take_pnl_pc) as u64),
                    ((coin_amount - amm.state_data.need_take_pnl_coin) as u64),
                ),
            )
        }),
{
    let total_pc_without_take_pnl = match pc_amount.checked_sub(amm.state_data.need_take_pnl_pc) {
        Some(v) => v,
        None => {
            return Err(Error::ArithmeticOverflow);
        },
    };
    let total_coin_without_take_pnl = match coin_amount.checked_sub(
        amm.state_data.need_take_pnl_coin,
    ) {
        Some(v) => v,
        None => {
            return Err(Error::ArithmeticOverflow);
        },
    };
    Ok((total_pc_without_take_pnl, total_coin_without_take_pnl))
}

/// Which way a swap runs between the pool's two currencies: quote ("pc") in
/// for base ("coin") out, or the reverse.
#[derive(Clone, Copy, PartialEq, Eq, Structural, Debug)]
pub enum SwapDirection {
    PC2Coin,
    Coin2PC,
}

/// This protocol's ceiling division, used for the swap fee: the quotient of
/// `lhs / rhs` rounded up, paired with the smallest divisor yielding it.  A
/// quotient under one is rounded to the nearest whole instead of up: it
/// becomes one only when `2 * lhs >= rhs`.
pub open spec fn spec_u128_checked_ceil_div(lhs: u128, rhs: u128) -> Option<(u128, u128)> {
    if rhs == 0 {
        None
    } else {
        let quotient = lhs / rhs;
        if quotient == 0 {
            if 2 * lhs > u128::MAX {
                None
            } else if 2 * lhs >= rhs {
                Some((1u128, 0u128))
            } else {
                Some((0u128, 0u128))
            }
        } else if lhs % rhs > 0 {
            if quotient + 1 > u128::MAX {
                None
            } else {
                let q = (quotient + 1) as u128;
                let r = lhs / q;
                if lhs % q > 0 {
                    if r + 1 > u128::MAX {
                        None
                    } else {
                        Some((q, (r + 1) as u128))
                    }
                } else {
                    Some((q, r))
                }
            }
        } else {
            Some((quotient, rhs))
        }
    }
}

/// Ceiling-fee law, via the identity `fee * den - p` lying in `[0, den)`
/// for `p = amount_in * num`: the swap fee is the exact ceiling of
/// `amount_in * num / den`.  The one family of inputs left out is
/// `0 < 2 * p < den`, where the venue's own division rounds the under-half
/// quotient down to zero instead of up to one.
pub proof fn lemma_ceiling_fee(amount_in: u64, fee_numerator: u64, fee_denominator: u64)
    requires
        fee_denominator > 0,
        amount_in * fee_numerator == 0 || 2 * (amount_in * fee_numerator) >= fee_denominator,
    ensures
        spec_u128_checked_ceil_div(
            (amount_in * fee_numerator) as u128,
            fee_denominator as u128,
        ) is Some,
        ({
            let p = amount_in * fee_numerator;
            let fee = spec_u128_checked_ceil_div(p as u128, fee_denominator as u128)->Some_0.0;
            0 <= fee * fee_denominator - p < fee_denominator
        }),
{
    lemma_mul_le(amount_in as int, fee_numerator as int, u64::MAX as int, u64::MAX as int);
    let p = amount_in * fee_numerator;
    let pw = p as u128;
    let d = fee_denominator as u128;
    let q = pw / d;
    vstd::arithmetic::div_mod::lemma_fundamental_div_mod(pw as int, d as int);
    vstd::arithmetic::div_mod::lemma_mod_bound(pw as int, d as int);
    if q == 0 {
        assert(pw < d) by {
            if pw >= d {
                vstd::arithmetic::div_mod::lemma_div_non_zero(pw as int, d as int);
            }
        }
        assert(2 * pw <= u128::MAX);
    } else {
        if pw % d > 0 {
            assert(q + 1 <= u128::MAX) by {
                assert(q <= pw);
            };
            let q2 = (q + 1) as u128;
            assert(q2 * d - p == d - pw % d) by {
                assert(pw == d * q + pw % d);
                assert(q2 * d == d * q + d) by (nonlinear_arith)
                    requires
                        q2 == q + 1,
                ;
            };
        } else {
            assert(q * d - p == 0) by {
                assert(pw == d * q + pw % d);
                assert(q * d == d * q) by (nonlinear_arith);
            };
        }
    }
}

/// See [`spec_u128_checked_ceil_div`].
pub fn u128_checked_ceil_div(lhs: u128, rhs: u128) -> (result: Option<(u128, u128)>)
    ensures
        result == spec_u128_checked_ceil_div(lhs, rhs),
{
    let mut rhs_ = rhs;
    let mut quotient = match lhs.checked_div(rhs_) {
        Some(q) => q,
        None => {
            return None;
        },
    };
    if quotient == 0 {
        let doubled = match lhs.checked_mul(2) {
            Some(d) => d,
            None => {
                return None;
            },
        };
        if doubled >= rhs_ {
            return Some((1, 0));
        } else {
            return Some((0, 0));
        }
    }
    let remainder = lhs % rhs_;
    if remainder > 0 {
        quotient = match quotient.checked_add(1) {
            Some(q) => q,
            None => {
                return None;
            },
        };
        rhs_ = lhs / quotient;
        let remainder2 = lhs % quotient;
        if remainder2 > 0 {
            rhs_ = match rhs_.checked_add(1) {
                Some(r) => r,
                None => {
                    return None;
                },
            };
        }
    }
    Some((quotient, rhs_))
}

/// The constant-product output for a given net input: `out = reserve_out *
/// amount_in / (reserve_in + amount_in)`, floor division.
pub open spec fn spec_swap_token_amount_base_in(amount_in: u128, total_pc: u128, total_coin: u128, swap_direction: SwapDirection) -> u128 {
    match swap_direction {
        SwapDirection::Coin2PC => (total_pc * amount_in / (total_coin + amount_in)) as u128,
        SwapDirection::PC2Coin => (total_coin * amount_in / (total_pc + amount_in)) as u128,
    }
}

/// See [`spec_swap_token_amount_base_in`].  The preconditions rule out the
/// zero denominator and the overflowing products on which the venue's own
/// arithmetic would not return.
pub fn swap_token_amount_base_in(amount_in: u128, total_pc_without_take_pnl: u128, total_coin_without_take_pnl: u128, swap_direction: SwapDirection) -> (r: u128)
    requires
        swap_direction == SwapDirection::Coin2PC ==> {
            &&& total_coin_without_take_pnl + amount_in <= u128::MAX
            &&& total_coin_without_take_pnl + amount_in > 0
            &&& total_pc_without_take_pnl * amount_in <= u128::MAX
        },
        swap_direction == SwapDirection::PC2Coin ==> {
            &&& total_pc_without_take_pnl + amount_in <= u128::MAX
            &&& total_pc_without_take_pnl + amount_in > 0
            &&& total_coin_without_take_pnl * amount_in <= u128::MAX
        },
    ensures
        r == spec_swap_token_amount_base_in(
            amount_in,
            total_pc_without_take_pnl,
            total_coin_without_take_pnl,
            swap_direction,
        ),
{
    match swap_direction {
        SwapDirection::Coin2PC => {
            let denominator = total_coin_without_take_pnl + amount_in;
            total_pc_without_take_pnl * amount_in / denominator
        },
        SwapDirection::PC2Coin => {
            let denominator = total_pc_without_take_pnl + amount_in;
            total_coin_without_take_pnl * amount_in / denominator
        },
    }
}

} // verus!
