//! Custodial multi-venue swap-routing engine.
//!
//! A custody record binds a manager and a trader to program-controlled
//! holding accounts and a derived signer authority.  On a swap request the
//! engine walks a caller-ordered list of liquidity venues, simulates each
//! venue's trade against externally-owned account state, executes the first
//! venue whose quoted output clears the caller's minimum, and checks that the
//! real balance movement matches the quote.
use vstd::prelude::*;

pub mod account;
pub mod arith;
pub mod dex;
pub mod error;
pub mod pda;
pub mod processor;
pub mod protocols;
pub mod spl;
pub mod state;

use crate::account::Address;

verus! {

/// The address this engine itself is deployed under; the first seed of every
/// derived authority.
pub open spec fn spec_program_id() -> Address {
    Address {
        w0: 0x750f187e9cd05f80,
        w1: 0x36b0218d253bec6a,
        w2: 0xeba156c220d07023,
        w3: 0x719e50e9d7651d67,
    }
}

pub fn program_id() -> (r: Address)
    ensures
        r == spec_program_id(),
{
    Address {
        w0: 0x750f187e9cd05f80,
        w1: 0x36b0218d253bec6a,
        w2: 0xeba156c220d07023,
        w3: 0x719e50e9d7651d67,
    }
}

/// The share-based vault AMM venue program.
pub open spec fn spec_meteora_v1_program_id() -> Address {
    Address {
        w0: 0xd784ccccd402f8cc,
        w1: 0x1ad8493bf7b521fb,
        w2: 0x9423e38ec8b4c516,
        w3: 0x8040cc88351dc9e1,
    }
}

pub fn meteora_v1_program_id() -> (r: Address)
    ensures
        r == spec_meteora_v1_program_id(),
{
    Address {
        w0: 0xd784ccccd402f8cc,
        w1: 0x1ad8493bf7b521fb,
        w2: 0x9423e38ec8b4c516,
        w3: 0x8040cc88351dc9e1,
    }
}

/// The vault program that holds the share-based venue's liquidity.
pub open spec fn spec_meteora_v1_vault_program_id() -> Address {
    Address {
        w0: 0xbd5c686d84e8bf0f,
        w1: 0xf6e8c7047eca2cc6,
        w2: 0xe27712b33a31cc8d,
        w3: 0xe552e0c02e2a11e0,
    }
}

pub fn meteora_v1_vault_program_id() -> (r: Address)
    ensures
        r == spec_meteora_v1_vault_program_id(),
{
    Address {
        w0: 0xbd5c686d84e8bf0f,
        w1: 0xf6e8c7047eca2cc6,
        w2: 0xe27712b33a31cc8d,
        w3: 0xe552e0c02e2a11e0,
    }
}

/// The hybrid order-book/AMM venue program.
pub open spec fn spec_raydium_v4_program_id() -> Address {
    Address {
        w0: 0x3fc30236c449d94b,
        w1: 0x4c52a316ed907720,
        w2: 0xa9a221f15c97b9a1,
        w3: 0xcd8ab6f87decff0c,
    }
}

pub fn raydium_v4_program_id() -> (r: Address)
    ensures
        r == spec_raydium_v4_program_id(),
{
    Address {
        w0: 0x3fc30236c449d94b,
        w1: 0x4c52a316ed907720,
        w2: 0xa9a221f15c97b9a1,
        w3: 0xcd8ab6f87decff0c,
    }
}

/// The token program that owns every token account the engine reads.
pub open spec fn spec_spl_token_program_id() -> Address {
    Address {
        w0: 0x93a165d7e1f6dd06,
        w1: 0xac79ebce46e1cbd9,
        w2: 0x91375b5fed85b41c,
        w3: 0xa900ff7e85f58c3a,
    }
}

pub fn spl_token_program_id() -> (r: Address)
    ensures
        r == spec_spl_token_program_id(),
{
    Address {
        w0: 0x93a165d7e1f6dd06,
        w1: 0xac79ebce46e1cbd9,
        w2: 0x91375b5fed85b41c,
        w3: 0xa900ff7e85f58c3a,
    }
}

/// The wrapped native mint; the only quote currency the engine accepts.
pub open spec fn spec_native_mint_id() -> Address {
    Address {
        w0: 0x8481abfe57889b06,
        w1: 0x35c01846637f68fb,
        w2: 0x553beb1adc39c4da,
        w3: 0x0100000000f0a098,
    }
}

pub fn native_mint_id() -> (r: Address)
    ensures
        r == spec_native_mint_id(),
{
    Address {
        w0: 0x8481abfe57889b06,
        w1: 0x35c01846637f68fb,
        w2: 0x553beb1adc39c4da,
        w3: 0x0100000000f0a098,
    }
}

/// The clock sysvar account's address.
pub open spec fn spec_sysvar_clock_id() -> Address {
    Address {
        w0: 0xc974c71817d5a706,
        w1: 0xb65e1d6998635628,
        w2: 0x5c6d4b9ba3b85e8b,
        w3: 0x00000000215b5573,
    }
}

pub fn sysvar_clock_id() -> (r: Address)
    ensures
        r == spec_sysvar_clock_id(),
{
    Address {
        w0: 0xc974c71817d5a706,
        w1: 0xb65e1d6998635628,
        w2: 0x5c6d4b9ba3b85e8b,
        w3: 0x00000000215b5573,
    }
}

/// The system program's address (all-zero).
pub open spec fn spec_system_program_id() -> Address {
    Address { w0: 0, w1: 0, w2: 0, w3: 0 }
}

pub fn system_program_id() -> (r: Address)
    ensures
        r == spec_system_program_id(),
{
    Address { w0: 0, w1: 0, w2: 0, w3: 0 }
}

/// The rent sysvar account's address.
pub open spec fn spec_sysvar_rent_id() -> Address {
    Address {
        w0: 0x515c2c1917d5a706,
        w1: 0x7ff14a3d4cc98c21,
        w2: 0x44fda19b08eeda58,
        w3: 0x000000008ad9dbe3,
    }
}

pub fn sysvar_rent_id() -> (r: Address)
    ensures
        r == spec_sysvar_rent_id(),
{
    Address {
        w0: 0x515c2c1917d5a706,
        w1: 0x7ff14a3d4cc98c21,
        w2: 0x44fda19b08eeda58,
        w3: 0x000000008ad9dbe3,
    }
}

/// The ten accounts that precede the per-venue account windows in every swap
/// instruction: custody record, trader, quote holding account, authority,
/// destination account, the two mints, and three system accounts.
pub const INTERMEDIARY_RESERVED_ACCOUNTS_QUANTITY: usize = 10;

} // verus!
