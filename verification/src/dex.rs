//! The venue layer: the shared per-instruction trade context, the quote each
//! venue produces, and one module per venue.  The venue set is closed, so the
//! orchestrator dispatches over [`crate::state::Dex`] rather than through an
//! open interface.
pub mod meteora_v1;
pub mod raydium_v4;

use vstd::prelude::*;
use crate::account::Address;

verus! {

/// A venue's quote: the pool it would trade on, the fee charged on the
/// input, and the simulated output amount.
#[derive(Clone, Copy, PartialEq, Eq, Structural, Debug)]
pub struct SwapCalculationResult {
    pub pool: Address,
    pub amount_in_fee: u64,
    pub amount_out: u64,
}

/// Where one account of a venue's nested invocation comes from: a slot of
/// the venue's own account window, or one of the three prefix accounts the
/// orchestrator supplies.
#[derive(Clone, Copy, PartialEq, Eq, Structural, Debug)]
pub enum CpiAccount {
    /// The account at this offset inside the venue's window.
    Window(usize),
    /// The caller's quote holding account (prefix slot 2).
    QuoteTokenAccount,
    /// The swap's destination token account (prefix slot 4).
    DestinationTokenAccount,
    /// The custody record's derived signer authority (prefix slot 3).
    SelfAuthority,
}

/// One entry of a venue's nested-invocation account table: which account,
/// and the writability and signer flags the venue program expects on it.
#[derive(Clone, Copy, PartialEq, Eq, Structural, Debug)]
pub struct CpiAccountMeta {
    pub account: CpiAccount,
    pub is_writable: bool,
    pub is_signer: bool,
}

/// The per-instruction trade context every venue quotes against.
#[derive(Clone, Copy, PartialEq, Eq, Structural, Debug)]
pub struct BaseData {
    pub token_mint: Address,
    pub quote_mint: Address,
    pub amount_in: u64,
    pub min_amount_out: u64,
    pub is_from_quote_to_token: bool,
    pub with_checks: bool,
}

} // verus!
