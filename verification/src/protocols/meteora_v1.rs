//! The share-based vault AMM protocol: pool and vault records as they sit in
//! externally-owned accounts, the fee rules (floor division with a one-unit
//! minimum), the time-decaying locked-profit schedule, and the
//! constant-product curve with its ceiling-division rounding.
//!
//! Every quoting function is an exact mirror of the venue's own arithmetic:
//! the rounding direction at each step is load-bearing.
use vstd::prelude::*;
use crate::account::{Address, spec_word_at, spec_address_at, read_u64_le, read_address};
use crate::arith::lemma_mul_le;

verus! {

pub const HOST_TRADE_FEE_NUMERATOR: u64 = 20000;

pub const FEE_DENOMINATOR: u64 = 100000;

pub const MAX_STRATEGY: usize = 30;

pub const LOCKED_PROFIT_DEGRADATION_DENOMINATOR: u128 = 1_000_000_000_000;

/// The fee schedule a pool charges on trades, as numerator/denominator pairs.
#[derive(Clone, Copy, PartialEq, Eq, Structural, Debug)]
pub struct PoolFees {
    pub trade_fee_numerator: u64,
    pub trade_fee_denominator: u64,
    pub protocol_trade_fee_numerator: u64,
    pub protocol_trade_fee_denominator: u64,
}

/// The fee on `token_amount` at rate `fee_numerator / fee_denominator`,
/// rounded down but never below one unit when the rate is nonzero: the
/// venue's minimum-fee rule.  `None` when the rate has a zero denominator or
/// the fee exceeds the 64-bit range.
pub open spec fn spec_calculate_fee(token_amount: u64, fee_numerator: u64, fee_denominator: u64) -> Option<u64> {
    if fee_numerator == 0 || token_amount == 0 {
        Some(0u64)
    } else if fee_denominator == 0 {
        None
    } else {
        let fee = token_amount * fee_numerator / (fee_denominator as int);
        if fee == 0 {
            Some(1u64)
        } else if fee > u64::MAX {
            None
        } else {
            Some(fee as u64)
        }
    }
}

/// Floor-division trade fee with the minimum-fee rule: a nonzero rate always
/// charges at least one unit.
pub fn calculate_fee(token_amount: u64, fee_numerator: u64, fee_denominator: u64) -> (r: Option<u64>)
    ensures
        r == spec_calculate_fee(token_amount, fee_numerator, fee_denominator),
        (fee_numerator > 0 && token_amount > 0 && fee_denominator > 0
            && token_amount * fee_numerator / (fee_denominator as int) == 0) ==> r == Some(1u64),
{
    if fee_numerator == 0 || token_amount == 0 {
        Some(0)
    } else {
        proof {
            lemma_mul_le(token_amount as int, fee_numerator as int, u64::MAX as int, u64::MAX as int);
        }
        let prod = match (token_amount as u128).checked_mul(fee_numerator as u128) {
            Some(p) => p,
            None => {
                return None;
            },
        };
        let fee = match prod.checked_div(fee_denominator as u128) {
            Some(f) => f,
            None => {
                return None;
            },
        };
        if fee == 0 {
            Some(1)
        } else if fee > u64::MAX as u128 {
            None
        } else {
            Some(fee as u64)
        }
    }
}

/// Minimum-fee law: whenever the fee rate is nonzero and the floor-division
/// fee on a nonzero amount would come out to zero, the charged fee is
/// exactly one unit, never zero.
pub proof fn lemma_minimum_fee(token_amount: u64, fee_numerator: u64, fee_denominator: u64)
    requires
        fee_numerator > 0,
        token_amount > 0,
        fee_denominator > 0,
        token_amount * fee_numerator / (fee_denominator as int) == 0,
    ensures
        spec_calculate_fee(token_amount, fee_numerator, fee_denominator) == Some(1u64),
{
}

impl PoolFees {
    /// The host's cut of `trading_tokens` at the fixed host rate, rounded
    /// down.
    pub fn host_trading_fee(&self, trading_tokens: u128) -> (r: Option<u128>)
        ensures
            r == (if trading_tokens * HOST_TRADE_FEE_NUMERATOR > u128::MAX {
                None
            } else {
                Some((trading_tokens * HOST_TRADE_FEE_NUMERATOR / (FEE_DENOMINATOR as int)) as u128)
            }),
    {
        match trading_tokens.checked_mul(HOST_TRADE_FEE_NUMERATOR as u128) {
            Some(p) => p.checked_div(FEE_DENOMINATOR as u128),
            None => None,
        }
    }

    /// The trade fee charged on `trading_tokens`.
    pub fn trading_fee(&self, trading_tokens: u64) -> (r: Option<u64>)
        ensures
            r == spec_calculate_fee(trading_tokens, self.trade_fee_numerator, self.trade_fee_denominator),
    {
        calculate_fee(trading_tokens, self.trade_fee_numerator, self.trade_fee_denominator)
    }

    /// The protocol's share, computed on an already-computed trade fee.
    pub fn protocol_trading_fee(&self, trading_tokens: u64) -> (r: Option<u64>)
        ensures
            r == spec_calculate_fee(trading_tokens, self.protocol_trade_fee_numerator, self.protocol_trade_fee_denominator),
    {
        calculate_fee(trading_tokens, self.protocol_trade_fee_numerator, self.protocol_trade_fee_denominator)
    }
}

/// The locked-profit state of a vault: profit reported at `last_report`
/// unlocks linearly at `locked_profit_degradation` per second.
#[derive(Clone, Copy, PartialEq, Eq, Structural, Debug)]
pub struct LockedProfitTracker {
    pub last_updated_locked_profit: u64,
    pub last_report: u64,
    pub locked_profit_degradation: u64,
}

/// The still-locked part of the last reported profit at `current_time`: the
/// reported amount scaled by the not-yet-elapsed fraction of the degradation
/// window, zero once the window has passed, `None` before the report time.
pub open spec fn spec_calculate_locked_profit(t: LockedProfitTracker, current_time: u64) -> Option<u64> {
    if current_time < t.last_report {
        None
    } else {
        let locked_fund_ratio = (current_time - t.last_report) * t.locked_profit_degradation;
        if locked_fund_ratio > LOCKED_PROFIT_DEGRADATION_DENOMINATOR {
            Some(0u64)
        } else {
            let locked_profit = t.last_updated_locked_profit
                * (LOCKED_PROFIT_DEGRADATION_DENOMINATOR - locked_fund_ratio)
                / (LOCKED_PROFIT_DEGRADATION_DENOMINATOR as int);
            if locked_profit > u64::MAX {
                None
            } else {
                Some(locked_profit as u64)
            }
        }
    }
}

impl LockedProfitTracker {
    /// See [`spec_calculate_locked_profit`].
    pub fn calculate_locked_profit(&self, current_time: u64) -> (r: Option<u64>)
        ensures
            r == spec_calculate_locked_profit(*self, current_time),
    {
        let duration = match current_time.checked_sub(self.last_report) {
            Some(d) => d as u128,
            None => {
                return None;
            },
        };
        proof {
            lemma_mul_le(duration as int, self.locked_profit_degradation as int, u64::MAX as int, u64::MAX as int);
        }
        let locked_fund_ratio = match duration.checked_mul(self.locked_profit_degradation as u128) {
            Some(x) => x,
            None => {
                return None;
            },
        };
        if locked_fund_ratio > LOCKED_PROFIT_DEGRADATION_DENOMINATOR {
            return Some(0);
        }
        proof {
            lemma_mul_le(
                self.last_updated_locked_profit as int,
                (LOCKED_PROFIT_DEGRADATION_DENOMINATOR - locked_fund_ratio) as int,
                u64::MAX as int,
                LOCKED_PROFIT_DEGRADATION_DENOMINATOR as int,
            );
        }
        let locked_profit = match (self.last_updated_locked_profit as u128).checked_mul(
            LOCKED_PROFIT_DEGRADATION_DENOMINATOR - locked_fund_ratio,
        ) {
            Some(x) => x / LOCKED_PROFIT_DEGRADATION_DENOMINATOR,
            None => {
                return None;
            },
        };
        if locked_profit > u64::MAX as u128 {
            None
        } else {
            Some(locked_profit as u64)
        }
    }
}

/// The derivation bumps a vault was created with.
#[derive(Clone, Copy, PartialEq, Eq, Structural, Debug)]
pub struct VaultBumps {
    pub vault_bump: u8,
    pub token_vault_bump: u8,
}

/// One side of a pool: a vault whose redeemable value is its total amount net
/// of the still-locked profit, owned proportionally by its share holders.
#[derive(Clone, Copy, PartialEq, Eq, Structural, Debug)]
pub struct Vault {
    pub enabled: u8,
    pub bumps: VaultBumps,
    pub total_amount: u64,
    pub token_vault: Address,
    pub fee_vault: Address,
    pub token_mint: Address,
    pub lp_mint: Address,
    pub base: Address,
    pub admin: Address,
    pub operator: Address,
    pub locked_profit_tracker: LockedProfitTracker,
}

/// The vault's redeemable total at `current_time`: its amount minus the
/// locked profit, `None` on underflow.
pub open spec fn spec_get_unlocked_amount(v: Vault, current_time: u64) -> Option<u64> {
    match spec_calculate_locked_profit(v.locked_profit_tracker, current_time) {
        None => None,
        Some(locked) => if v.total_amount < locked {
            None
        } else {
            Some((v.total_amount - locked) as u64)
        },
    }
}

/// What `share` vault shares redeem for at `current_time`, rounded down:
/// `share * unlocked / total_supply`.
pub open spec fn spec_get_amount_by_share(v: Vault, current_time: u64, share: u64, total_supply: u64) -> Option<u64> {
    match spec_get_unlocked_amount(v, current_time) {
        None => None,
        Some(total_amount) => if total_supply == 0 {
            None
        } else {
            let amount = share * total_amount / (total_supply as int);
            if amount > u64::MAX {
                None
            } else {
                Some(amount as u64)
            }
        },
    }
}

/// How many shares `out_token` tokens mint at `current_time`, rounded down:
/// `out_token * total_supply / unlocked`.
pub open spec fn spec_get_unmint_amount(v: Vault, current_time: u64, out_token: u64, total_supply: u64) -> Option<u64> {
    match spec_get_unlocked_amount(v, current_time) {
        None => None,
        Some(total_amount) => if total_amount == 0 {
            None
        } else {
            let shares = out_token * total_supply / (total_amount as int);
            if shares > u64::MAX {
                None
            } else {
                Some(shares as u64)
            }
        },
    }
}

impl Vault {
    /// See [`spec_get_unlocked_amount`].
    pub fn get_unlocked_amount(&self, current_time: u64) -> (r: Option<u64>)
        ensures
            r == spec_get_unlocked_amount(*self, current_time),
    {
        match self.locked_profit_tracker.calculate_locked_profit(current_time) {
            Some(locked) => self.total_amount.checked_sub(locked),
            None => None,
        }
    }

    /// See [`spec_get_amount_by_share`].
    pub fn get_amount_by_share(&self, current_time: u64, share: u64, total_supply: u64) -> (r: Option<u64>)
        ensures
            r == spec_get_amount_by_share(*self, current_time, share, total_supply),
    {
        let total_amount = match self.get_unlocked_amount(current_time) {
            Some(t) => t,
            None => {
                return None;
            },
        };
        if total_supply == 0 {
            return None;
        }
        proof {
            lemma_mul_le(share as int, total_amount as int, u64::MAX as int, u64::MAX as int);
        }
        let amount = match (share as u128).checked_mul(total_amount as u128) {
            Some(p) => p / (total_supply as u128),
            None => {
                return None;
            },
        };
        if amount > u64::MAX as u128 {
            None
        } else {
            Some(amount as u64)
        }
    }

    /// See [`spec_get_unmint_amount`].
    pub fn get_unmint_amount(&self, current_time: u64, out_token: u64, total_supply: u64) -> (r: Option<u64>)
        ensures
            r == spec_get_unmint_amount(*self, current_time, out_token, total_supply),
    {
        let total_amount = match self.get_unlocked_amount(current_time) {
            Some(t) => t,
            None => {
                return None;
            },
        };
        if total_amount == 0 {
            return None;
        }
        proof {
            lemma_mul_le(out_token as int, total_supply as int, u64::MAX as int, u64::MAX as int);
        }
        let shares = match (out_token as u128).checked_mul(total_supply as u128) {
            Some(p) => p / (total_amount as u128),
            None => {
                return None;
            },
        };
        if shares > u64::MAX as u128 {
            None
        } else {
            Some(shares as u64)
        }
    }
}

/// Whether a pool is permissioned or open to anyone.
#[derive(Clone, Copy, PartialEq, Eq, Structural, Debug)]
pub enum PoolType {
    Permissioned,
    Permissionless,
}

/// Normalisation multipliers for a stable-curve pool.
#[derive(Clone, Copy, PartialEq, Eq, Structural, Debug)]
pub struct TokenMultiplier {
    pub token_a_multiplier: u64,
    pub token_b_multiplier: u64,
    pub precision_factor: u8,
}

/// Which external staking protocol a depeg pool tracks.
#[derive(Clone, Copy, PartialEq, Eq, Structural, Debug)]
pub enum DepegType {
    NoDepeg,
    Marinade,
    Lido,
    SplStake,
}

impl DepegType {
    /// Whether the pool is not a depeg pool.
    pub fn is_none(&self) -> (r: bool)
        ensures
            r == (*self == DepegType::NoDepeg),
    {
        match *self {
            DepegType::NoDepeg => true,
            _ => false,
        }
    }
}

/// Virtual-price information for a depeg pool.
#[derive(Clone, Copy, PartialEq, Eq, Structural, Debug)]
pub struct Depeg {
    pub base_virtual_price: u64,
    pub base_cache_updated: u64,
    pub depeg_type: DepegType,
}

/// The swap curve a pool runs: the plain constant product, or a stable curve
/// (which this engine does not quote and skips as ineligible).
#[derive(Clone, Copy, PartialEq, Eq, Structural, Debug)]
pub enum CurveType {
    ConstantProduct,
    Stable {
        amp: u64,
        token_multiplier: TokenMultiplier,
        depeg: Depeg,
        last_amp_updated_timestamp: u64,
    },
}

/// A pool's activation gate: by slot count or by wall-clock time.
#[derive(Clone, Copy, PartialEq, Eq, Structural, Debug)]
pub enum ActivationType {
    Slot,
    Timestamp,
}

impl ActivationType {
    /// The activation gate a stored tag byte denotes; tags above 1 are
    /// malformed.
    pub fn try_from(s: u8) -> (r: Option<ActivationType>)
        ensures
            r == (if s == 0 {
                Some(ActivationType::Slot)
            } else if s == 1 {
                Some(ActivationType::Timestamp)
            } else {
                None::<ActivationType>
            }),
    {
        if s == 0 {
            Some(ActivationType::Slot)
        } else if s == 1 {
            Some(ActivationType::Timestamp)
        } else {
            None
        }
    }
}

/// A pool's launch configuration.
#[derive(Clone, Copy, PartialEq, Eq, Structural, Debug)]
pub struct Bootstrapping {
    pub activation_point: u64,
    pub whitelisted_vault: Address,
    pub pool_creator: Address,
    pub activation_type: u8,
}

/// The launch partner's fee entitlement.
#[derive(Clone, Copy, PartialEq, Eq, Structural, Debug)]
pub struct PartnerInfo {
    pub fee_numerator: u64,
    pub partner_authority: Address,
    pub pending_fee_a: u64,
    pub pending_fee_b: u64,
}

/// A pool record as decoded from its account: two currencies, a vault and a
/// vault share account on each side, the fee schedule, the launch gate, and
/// the curve.  Interior padding in the stored layout is validated by length
/// and not retained.
#[derive(Clone, Copy, PartialEq, Eq, Structural, Debug)]
pub struct Pool {
    pub lp_mint: Address,
    pub token_a_mint: Address,
    pub token_b_mint: Address,
    pub a_vault: Address,
    pub b_vault: Address,
    pub a_vault_lp: Address,
    pub b_vault_lp: Address,
    pub a_vault_lp_bump: u8,
    pub enabled: bool,
    pub protocol_token_a_fee: Address,
    pub protocol_token_b_fee: Address,
    pub fee_last_updated_at: u64,
    pub fees: PoolFees,
    pub pool_type: PoolType,
    pub stake: Address,
    pub total_locked_lp: u64,
    pub bootstrapping: Bootstrapping,
    pub partner_info: PartnerInfo,
    pub curve_type: CurveType,
}

/// The pool record's minimum stored length (constant-product curve); a
/// stable-curve record carries a further 50 bytes of curve payload.
pub const POOL_DATA_MIN_LEN: usize = 867;

/// Whether `s` holds a well-formed pool record: long enough for its curve
/// variant, with valid boolean and enum tag bytes.
pub open spec fn spec_pool_data_valid(s: Seq<u8>) -> bool {
    &&& s.len() >= 867
    &&& (s[225] == 0 || s[225] == 1)
    &&& (s[354] == 0 || s[354] == 1)
    &&& (s[866] == 0 || s[866] == 1)
    &&& (s[866] == 1 ==> s.len() >= 917 && s[908] <= 3)
}

/// The depeg kind a stored tag byte denotes.
pub open spec fn spec_depeg_type_at(tag: u8) -> DepegType {
    if tag == 0 {
        DepegType::NoDepeg
    } else if tag == 1 {
        DepegType::Marinade
    } else if tag == 2 {
        DepegType::Lido
    } else {
        DepegType::SplStake
    }
}

/// The pool record stored in `s` (which must be well-formed).
pub open spec fn spec_pool_at(s: Seq<u8>) -> Pool {
    Pool {
        lp_mint: spec_address_at(s, 0),
        token_a_mint: spec_address_at(s, 32),
        token_b_mint: spec_address_at(s, 64),
        a_vault: spec_address_at(s, 96),
        b_vault: spec_address_at(s, 128),
        a_vault_lp: spec_address_at(s, 160),
        b_vault_lp: spec_address_at(s, 192),
        a_vault_lp_bump: s[224],
        enabled: s[225] == 1,
        protocol_token_a_fee: spec_address_at(s, 226),
        protocol_token_b_fee: spec_address_at(s, 258),
        fee_last_updated_at: spec_word_at(s, 290),
        fees: PoolFees {
            trade_fee_numerator: spec_word_at(s, 322),
            trade_fee_denominator: spec_word_at(s, 330),
            protocol_trade_fee_numerator: spec_word_at(s, 338),
            protocol_trade_fee_denominator: spec_word_at(s, 346),
        },
        pool_type: if s[354] == 0 {
            PoolType::Permissioned
        } else {
            PoolType::Permissionless
        },
        stake: spec_address_at(s, 355),
        total_locked_lp: spec_word_at(s, 387),
        bootstrapping: Bootstrapping {
            activation_point: spec_word_at(s, 395),
            whitelisted_vault: spec_address_at(s, 403),
            pool_creator: spec_address_at(s, 435),
            activation_type: s[467],
        },
        partner_info: PartnerInfo {
            fee_numerator: spec_word_at(s, 468),
            partner_authority: spec_address_at(s, 476),
            pending_fee_a: spec_word_at(s, 508),
            pending_fee_b: spec_word_at(s, 516),
        },
        curve_type: if s[866] == 0 {
            CurveType::ConstantProduct
        } else {
            CurveType::Stable {
                amp: spec_word_at(s, 867),
                token_multiplier: TokenMultiplier {
                    token_a_multiplier: spec_word_at(s, 875),
                    token_b_multiplier: spec_word_at(s, 883),
                    precision_factor: s[891],
                },
                depeg: Depeg {
                    base_virtual_price: spec_word_at(s, 892),
                    base_cache_updated: spec_word_at(s, 900),
                    depeg_type: spec_depeg_type_at(s[908]),
                },
                last_amp_updated_timestamp: spec_word_at(s, 909),
            }
        },
    }
}

impl Pool {
    /// Decodes a pool record from its stored bytes (the account data with its
    /// discriminator already stripped).  `None` when the record is malformed:
    /// too short, or a boolean or tag byte out of range.  Interior padding is
    /// validated by length and not retained.
    pub fn decode(data: &[u8]) -> (r: Option<Pool>)
        ensures
            r is Some <==> spec_pool_data_valid(data@),
            r matches Some(p) ==> p == spec_pool_at(data@),
    {
        let n = data.len();
        if n < 867 {
            return None;
        }
        if data[225] > 1 {
            return None;
        }
        if data[354] > 1 {
            return None;
        }
        if data[866] > 1 {
            return None;
        }
        let curve_type = if data[866] == 0 {
            CurveType::ConstantProduct
        } else {
            if n < 917 {
                return None;
            }
            if data[908] > 3 {
                return None;
            }
            let depeg_type = if data[908] == 0 {
                DepegType::NoDepeg
            } else if data[908] == 1 {
                DepegType::Marinade
            } else if data[908] == 2 {
                DepegType::Lido
            } else {
                DepegType::SplStake
            };
            CurveType::Stable {
                amp: read_u64_le(data, 867),
                token_multiplier: TokenMultiplier {
                    token_a_multiplier: read_u64_le(data, 875),
                    token_b_multiplier: read_u64_le(data, 883),
                    precision_factor: data[891],
                },
                depeg: Depeg {
                    base_virtual_price: read_u64_le(data, 892),
                    base_cache_updated: read_u64_le(data, 900),
                    depeg_type,
                },
                last_amp_updated_timestamp: read_u64_le(data, 909),
            }
        };
        Some(Pool {
            lp_mint: read_address(data, 0),
            token_a_mint: read_address(data, 32),
            token_b_mint: read_address(data, 64),
            a_vault: read_address(data, 96),
            b_vault: read_address(data, 128),
            a_vault_lp: read_address(data, 160),
            b_vault_lp: read_address(data, 192),
            a_vault_lp_bump: data[224],
            enabled: data[225] == 1,
            protocol_token_a_fee: read_address(data, 226),
            protocol_token_b_fee: read_address(data, 258),
            fee_last_updated_at: read_u64_le(data, 290),
            fees: PoolFees {
                trade_fee_numerator: read_u64_le(data, 322),
                trade_fee_denominator: read_u64_le(data, 330),
                protocol_trade_fee_numerator: read_u64_le(data, 338),
                protocol_trade_fee_denominator: read_u64_le(data, 346),
            },
            pool_type: if data[354] == 0 {
                PoolType::Permissioned
            } else {
                PoolType::Permissionless
            },
            stake: read_address(data, 355),
            total_locked_lp: read_u64_le(data, 387),
            bootstrapping: Bootstrapping {
                activation_point: read_u64_le(data, 395),
                whitelisted_vault: read_address(data, 403),
                pool_creator: read_address(data, 435),
                activation_type: data[467],
            },
            partner_info: PartnerInfo {
                fee_numerator: read_u64_le(data, 468),
                partner_authority: read_address(data, 476),
                pending_fee_a: read_u64_le(data, 508),
                pending_fee_b: read_u64_le(data, 516),
            },
            curve_type,
        })
    }
}

/// The vault record's stored length: its scalar head, four addresses, the
/// strategy list, three more addresses and the locked-profit tracker.
pub const VAULT_DATA_LEN: usize = 1219;

/// The vault record stored in `s` (which must be at least
/// [`VAULT_DATA_LEN`] bytes).  The strategy list is validated by length and
/// not retained.
pub open spec fn spec_vault_at(s: Seq<u8>) -> Vault {
    Vault {
        enabled: s[0],
        bumps: VaultBumps { vault_bump: s[1], token_vault_bump: s[2] },
        total_amount: spec_word_at(s, 3),
        token_vault: spec_address_at(s, 11),
        fee_vault: spec_address_at(s, 43),
        token_mint: spec_address_at(s, 75),
        lp_mint: spec_address_at(s, 107),
        base: spec_address_at(s, 1099),
        admin: spec_address_at(s, 1131),
        operator: spec_address_at(s, 1163),
        locked_profit_tracker: LockedProfitTracker {
            last_updated_locked_profit: spec_word_at(s, 1195),
            last_report: spec_word_at(s, 1203),
            locked_profit_degradation: spec_word_at(s, 1211),
        },
    }
}

impl Vault {
    /// Decodes a vault record from its stored bytes (the account data with
    /// its discriminator already stripped); `None` when too short.
    pub fn decode(data: &[u8]) -> (r: Option<Vault>)
        ensures
            r is Some <==> data@.len() >= VAULT_DATA_LEN,
            r matches Some(v) ==> v == spec_vault_at(data@),
    {
        let n = data.len();
        if n < VAULT_DATA_LEN {
            return None;
        }
        Some(Vault {
            enabled: data[0],
            bumps: VaultBumps { vault_bump: data[1], token_vault_bump: data[2] },
            total_amount: read_u64_le(data, 3),
            token_vault: read_address(data, 11),
            fee_vault: read_address(data, 43),
            token_mint: read_address(data, 75),
            lp_mint: read_address(data, 107),
            base: read_address(data, 1099),
            admin: read_address(data, 1131),
            operator: read_address(data, 1163),
            locked_profit_tracker: LockedProfitTracker {
                last_updated_locked_profit: read_u64_le(data, 1195),
                last_report: read_u64_le(data, 1203),
                locked_profit_degradation: read_u64_le(data, 1211),
            },
        })
    }
}

/// Trade direction through a pool: input currency A for B, or B for A.
#[derive(Clone, Copy, PartialEq, Eq, Structural, Debug)]
pub enum TradeDirection {
    AtoB,
    BtoA,
}

/// The outcome of simulating a swap on the curve.
#[derive(Clone, Copy, PartialEq, Eq, Structural, Debug)]
pub struct SwapResult {
    pub new_swap_source_amount: u128,
    pub new_swap_destination_amount: u128,
    pub source_amount_swapped: u128,
    pub destination_amount_swapped: u128,
}

/// The swapped amounts before fee accounting.
#[derive(Clone, Copy, PartialEq, Eq, Structural, Debug)]
pub struct SwapWithoutFeesResult {
    pub source_amount_swapped: u128,
    pub destination_amount_swapped: u128,
}

/// `None` for zero, the value otherwise.
pub fn map_zero_to_none(x: u128) -> (r: Option<u128>)
    ensures
        r == (if x == 0 {
            None::<u128>
        } else {
            Some(x)
        }),
{
    if x == 0 {
        None
    } else {
        Some(x)
    }
}

/// This protocol's ceiling division: the quotient of `lhs / rhs` rounded up,
/// paired with the smallest divisor that still yields that quotient (also
/// rounded up).  Fails on a zero divisor and on a quotient that would round
/// up from zero.
pub open spec fn spec_checked_ceil_div(lhs: u128, rhs: u128) -> Option<(u128, u128)> {
    if rhs == 0 {
        None
    } else {
        let quotient = lhs / rhs;
        if quotient == 0 {
            None
        } else if lhs % rhs > 0 {
            if quotient + 1 > u128::MAX {
                None
            } else {
                let q = (quotient + 1) as u128;
                let r = lhs / q;
                if lhs % q > 0 {
                    if r + 1 > u128::MAX {
                        None
                    } else {
                        Some((q, (r + 1) as u128))
                    }
                } else {
                    Some((q, r))
                }
            }
        } else {
            Some((quotient, rhs))
        }
    }
}

/// See [`spec_checked_ceil_div`].
pub fn checked_ceil_div(lhs: u128, rhs: u128) -> (result: Option<(u128, u128)>)
    ensures
        result == spec_checked_ceil_div(lhs, rhs),
{
    let mut rhs_ = rhs;
    let mut quotient = match lhs.checked_div(rhs_) {
        Some(q) => q,
        None => {
            return None;
        },
    };
    if quotient == 0 {
        return None;
    }
    let remainder = lhs % rhs_;
    if remainder > 0 {
        quotient = match quotient.checked_add(1) {
            Some(q) => q,
            None => {
                return None;
            },
        };
        rhs_ = lhs / quotient;
        let remainder2 = lhs % quotient;
        if remainder2 > 0 {
            rhs_ = match rhs_.checked_add(1) {
                Some(r) => r,
                None => {
                    return None;
                },
            };
        }
    }
    Some((quotient, rhs_))
}

/// One constant-product swap, fees already taken: trade `source_amount` into
/// a pool holding `swap_source_amount` / `swap_destination_amount`, keeping
/// the invariant and rounding the kept destination side up (the trader's
/// output down).
pub open spec fn spec_swap_without_fees(source_amount: u128, swap_source_amount: u128, swap_destination_amount: u128) -> Option<SwapWithoutFeesResult> {
    if swap_source_amount * swap_destination_amount > u128::MAX {
        None
    } else if swap_source_amount + source_amount > u128::MAX {
        None
    } else {
        let curve_invariant = (swap_source_amount * swap_destination_amount) as u128;
        let new_source = (swap_source_amount + source_amount) as u128;
        match spec_checked_ceil_div(curve_invariant, new_source) {
            None => None,
            Some((new_swap_destination_amount, new_swap_source_amount)) => {
                if new_swap_source_amount < swap_source_amount {
                    None
                } else if swap_destination_amount < new_swap_destination_amount {
                    None
                } else if swap_destination_amount - new_swap_destination_amount == 0 {
                    None
                } else {
                    Some(SwapWithoutFeesResult {
                        source_amount_swapped: (new_swap_source_amount - swap_source_amount) as u128,
                        destination_amount_swapped: (swap_destination_amount - new_swap_destination_amount) as u128,
                    })
                }
            },
        }
    }
}

/// The curve variant this engine quotes: the plain constant product.
pub struct ConstantProduct;

impl ConstantProduct {
    /// See [`spec_swap_without_fees`].
    pub fn swap_(source_amount: u128, swap_source_amount: u128, swap_destination_amount: u128) -> (r: Option<SwapWithoutFeesResult>)
        ensures
            r == spec_swap_without_fees(source_amount, swap_source_amount, swap_destination_amount),
    {
        let curve_invariant = match swap_source_amount.checked_mul(swap_destination_amount) {
            Some(i) => i,
            None => {
                return None;
            },
        };
        let new_swap_source_amount = match swap_source_amount.checked_add(source_amount) {
            Some(n) => n,
            None => {
                return None;
            },
        };
        let (new_swap_destination_amount, new_swap_source_amount) = match checked_ceil_div(curve_invariant, new_swap_source_amount) {
            Some(p) => p,
            None => {
                return None;
            },
        };
        let source_amount_swapped = match new_swap_source_amount.checked_sub(swap_source_amount) {
            Some(s) => s,
            None => {
                return None;
            },
        };
        let destination_amount_swapped = match swap_destination_amount.checked_sub(new_swap_destination_amount) {
            Some(d) => match map_zero_to_none(d) {
                Some(d_) => d_,
                None => {
                    return None;
                },
            },
            None => {
                return None;
            },
        };
        Some(SwapWithoutFeesResult { source_amount_swapped, destination_amount_swapped })
    }

    /// The full curve simulation over 64-bit pool totals.  The trade
    /// direction does not change the arithmetic; it is threaded through for
    /// the caller's bookkeeping.
    pub fn swap(&self, source_amount: u64, swap_source_amount: u64, swap_destination_amount: u64, _trade_direction: TradeDirection) -> (r: Option<SwapResult>)
        ensures
            r == spec_swap(source_amount, swap_source_amount, swap_destination_amount),
    {
        let source_amount_: u128 = source_amount as u128;
        let swap_source_amount_: u128 = swap_source_amount as u128;
        let swap_destination_amount_: u128 = swap_destination_amount as u128;
        let wf = match Self::swap_(source_amount_, swap_source_amount_, swap_destination_amount_) {
            Some(w) => w,
            None => {
                return None;
            },
        };
        let new_swap_source_amount = match swap_source_amount_.checked_add(wf.source_amount_swapped) {
            Some(n) => n,
            None => {
                return None;
            },
        };
        let new_swap_destination_amount = match swap_destination_amount_.checked_sub(wf.destination_amount_swapped) {
            Some(n) => n,
            None => {
                return None;
            },
        };
        Some(SwapResult {
            new_swap_source_amount,
            new_swap_destination_amount,
            source_amount_swapped: wf.source_amount_swapped,
            destination_amount_swapped: wf.destination_amount_swapped,
        })
    }
}

/// [`ConstantProduct::swap`] as a value: the swap amounts of
/// [`spec_swap_without_fees`] and the updated pool totals.
pub open spec fn spec_swap(source_amount: u64, swap_source_amount: u64, swap_destination_amount: u64) -> Option<SwapResult> {
    match spec_swap_without_fees(source_amount as u128, swap_source_amount as u128, swap_destination_amount as u128) {
        None => None,
        Some(wf) => {
            if swap_source_amount + wf.source_amount_swapped > u128::MAX {
                None
            } else if swap_destination_amount < wf.destination_amount_swapped {
                None
            } else {
                Some(SwapResult {
                    new_swap_source_amount: (swap_source_amount + wf.source_amount_swapped) as u128,
                    new_swap_destination_amount: (swap_destination_amount - wf.destination_amount_swapped) as u128,
                    source_amount_swapped: wf.source_amount_swapped,
                    destination_amount_swapped: wf.destination_amount_swapped,
                })
            }
        },
    }
}

} // verus!
