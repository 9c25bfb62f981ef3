//! The persistent custody record ("intermediary"): one ledger account
//! binding a manager and a trader to program-controlled holding accounts and
//! a derived signer authority.  Its bytes are untrusted input until every
//! stored address has been re-derived from its bump seed.
use vstd::prelude::*;
use crate::account::{Address, spec_address_at, read_address};

verus! {

/// The custody record, 196 bytes on ledger.
#[derive(Clone, Copy, PartialEq, Eq, Structural, Debug)]
pub struct Intermediary {
    /// Manages funds: may initialize, deposit and withdraw.
    pub manager: Address,
    /// May request swaps.
    pub trader: Address,
    /// The quote-currency holding account, owned by the signer authority.
    pub w_sol_token_account: Address,
    /// A scratch account used while withdrawing from the holding account.
    pub temporary_w_sol_token_account: Address,
    /// The batched-address table that keeps transactions under the account
    /// ceiling.
    pub common_address_lookup_table: Address,
    /// The derived signer authority controlling the holding accounts.
    pub self_authority: Address,
    pub w_sol_token_account_pubkey_bump_seed: u8,
    pub temporary_w_sol_token_account_pubkey_bump_seed: u8,
    pub self_authority_pubkey_bump_seed: u8,
    /// 1 once initialized, 0 before.
    pub is_initialized: u8,
}

/// The record's stored length.
pub const INTERMEDIARY_LEN: usize = 196;

/// The custody record stored in `s`.
pub open spec fn spec_intermediary_at(s: Seq<u8>) -> Intermediary {
    Intermediary {
        manager: spec_address_at(s, 0),
        trader: spec_address_at(s, 32),
        w_sol_token_account: spec_address_at(s, 64),
        temporary_w_sol_token_account: spec_address_at(s, 96),
        common_address_lookup_table: spec_address_at(s, 128),
        self_authority: spec_address_at(s, 160),
        w_sol_token_account_pubkey_bump_seed: s[192],
        temporary_w_sol_token_account_pubkey_bump_seed: s[193],
        self_authority_pubkey_bump_seed: s[194],
        is_initialized: s[195],
    }
}

impl Intermediary {
    /// A fresh record: the given identities and bumps, marked initialized.
    pub fn new(
        manager: Address,
        trader: Address,
        w_sol_token_account: Address,
        temporary_w_sol_token_account: Address,
        common_address_lookup_table: Address,
        self_authority: Address,
        w_sol_token_account_pubkey_bump_seed: u8,
        temporary_w_sol_token_account_pubkey_bump_seed: u8,
        self_authority_pubkey_bump_seed: u8,
    ) -> (r: Intermediary)
        ensures
            r == (Intermediary {
                manager,
                trader,
                w_sol_token_account,
                temporary_w_sol_token_account,
                common_address_lookup_table,
                self_authority,
                w_sol_token_account_pubkey_bump_seed,
                temporary_w_sol_token_account_pubkey_bump_seed,
                self_authority_pubkey_bump_seed,
                is_initialized: 1u8,
            }),
    {
        Intermediary {
            manager,
            trader,
            w_sol_token_account,
            temporary_w_sol_token_account,
            common_address_lookup_table,
            self_authority,
            w_sol_token_account_pubkey_bump_seed,
            temporary_w_sol_token_account_pubkey_bump_seed,
            self_authority_pubkey_bump_seed,
            is_initialized: 1,
        }
    }

    /// Whether the record has been initialized.
    pub fn is_initialized(&self) -> (r: bool)
        ensures
            r == (self.is_initialized == 1),
    {
        self.is_initialized == 1
    }

    /// Decodes the record from its account data; `None` unless the length is
    /// exactly the record's.
    pub fn decode(data: &[u8]) -> (r: Option<Intermediary>)
        ensures
            r is Some <==> data@.len() == INTERMEDIARY_LEN,
            r matches Some(im) ==> im == spec_intermediary_at(data@),
    {
        let n = data.len();
        if n != INTERMEDIARY_LEN {
            return None;
        }
        Some(Intermediary {
            manager: read_address(data, 0),
            trader: read_address(data, 32),
            w_sol_token_account: read_address(data, 64),
            temporary_w_sol_token_account: read_address(data, 96),
            common_address_lookup_table: read_address(data, 128),
            self_authority: read_address(data, 160),
            w_sol_token_account_pubkey_bump_seed: data[192],
            temporary_w_sol_token_account_pubkey_bump_seed: data[193],
            self_authority_pubkey_bump_seed: data[194],
            is_initialized: data[195],
        })
    }
}

/// The closed set of venues the engine can route through.
#[derive(Clone, Copy, PartialEq, Eq, Structural, Debug)]
pub enum Dex {
    MeteoraV1,
    RaydiumV4,
}

impl Dex {
    /// The venue's name, for log lines.
    pub fn to_str(&self) -> (r: &'static str)
        ensures
            r@ == (match *self {
                Dex::MeteoraV1 => "MeteoraV1"@,
                Dex::RaydiumV4 => "RaydiumV4"@,
            }),
    {
        match *self {
            Dex::MeteoraV1 => "MeteoraV1",
            Dex::RaydiumV4 => "RaydiumV4",
        }
    }
}

} // verus!
