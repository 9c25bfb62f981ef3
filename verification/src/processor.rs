//! The swap orchestrator: validates the request and every account identity,
//! deduplicates the caller's venue list, walks it in order quoting each
//! venue, picks the first venue whose quote clears the caller's minimum
//! (first-fit, not best-of-all), and checks the real balance movement after
//! execution against the quote.
//!
//! The orchestrator is split at the engine's only call-out points: planning
//! (everything up to and including venue selection, pure over the account
//! snapshots) and settlement (the balance invariant, pure over the re-read
//! balances).  The nested invocations that execute the chosen venue and
//! refresh the holding account sit between the two, outside this engine.
use vstd::prelude::*;
use vstd::slice::slice_to_vec;
use crate::account::{Address, AccountData};
use crate::dex::{BaseData, SwapCalculationResult};
use crate::dex::meteora_v1::MeteoraV1;
use crate::dex::raydium_v4::RaydiumV4;
use crate::error::Error;
use crate::pda::{PdaResolver, spec_create_program_address, spec_token_account_seeds,
    spec_self_authority_seeds};
use crate::spl::{spec_token_account_well_formed, spec_token_account_amount,
    spec_fresh_token_account_bytes, fresh_token_account_bytes, unpack_token_account_unchecked};
use crate::state::{Dex, Intermediary, spec_intermediary_at, INTERMEDIARY_LEN};
use crate::{spec_native_mint_id, native_mint_id, spec_system_program_id, system_program_id,
    spec_sysvar_rent_id, sysvar_rent_id, spec_spl_token_program_id, spl_token_program_id,
    spec_program_id};

verus! {

/// The number of accounts this venue's selector adds to the account list.
pub open spec fn spec_dex_accounts_quantity(d: Dex) -> int {
    match d {
        Dex::MeteoraV1 => 14,
        Dex::RaydiumV4 => 16,
    }
}

/// The start of venue `i`'s account window: the fixed ten-account prefix
/// plus the windows of every earlier venue, in list order.
pub open spec fn spec_first_index(dexes: Seq<Dex>, i: int) -> int
    decreases i,
{
    if i <= 0 {
        10
    } else {
        spec_first_index(dexes, i - 1) + spec_dex_accounts_quantity(dexes[i - 1])
    }
}

/// Venue `i`'s quote at its window.
pub open spec fn spec_venue_quote(
    dexes: Seq<Dex>,
    accounts: Seq<AccountData>,
    base_data: BaseData,
    user_source_owner: Address,
    user_source_data: Seq<u8>,
    user_destination_owner: Address,
    user_destination_data: Seq<u8>,
    i: int,
) -> Result<Option<SwapCalculationResult>, Error> {
    match dexes[i] {
        Dex::MeteoraV1 => crate::dex::meteora_v1::spec_do_swap_calculation(
            accounts,
            base_data,
            spec_first_index(dexes, i),
        ),
        Dex::RaydiumV4 => crate::dex::raydium_v4::spec_do_swap_calculation(
            accounts,
            base_data,
            user_source_owner,
            user_source_data,
            user_destination_owner,
            user_destination_data,
            spec_first_index(dexes, i),
        ),
    }
}

/// Whether venue `i`'s quote exists and clears the caller's minimum.
pub open spec fn spec_venue_fits(
    dexes: Seq<Dex>,
    accounts: Seq<AccountData>,
    base_data: BaseData,
    user_source_owner: Address,
    user_source_data: Seq<u8>,
    user_destination_owner: Address,
    user_destination_data: Seq<u8>,
    i: int,
) -> bool {
    spec_venue_quote(
        dexes,
        accounts,
        base_data,
        user_source_owner,
        user_source_data,
        user_destination_owner,
        user_destination_data,
        i,
    ) matches Ok(Some(q)) && q.amount_out >= base_data.min_amount_out
}

/// First-fit selection from venue `i` on: the first quoting error is fatal,
/// an ineligible or under-minimum venue advances, and the first venue whose
/// quote clears the minimum wins.
pub open spec fn spec_select_from(
    dexes: Seq<Dex>,
    accounts: Seq<AccountData>,
    base_data: BaseData,
    user_source_owner: Address,
    user_source_data: Seq<u8>,
    user_destination_owner: Address,
    user_destination_data: Seq<u8>,
    i: int,
) -> Result<Option<(int, SwapCalculationResult)>, Error>
    decreases dexes.len() - i,
{
    if i < 0 || i >= dexes.len() {
        Ok(None)
    } else {
        match spec_venue_quote(
            dexes,
            accounts,
            base_data,
            user_source_owner,
            user_source_data,
            user_destination_owner,
            user_destination_data,
            i,
        ) {
            Err(e) => Err(e),
            Ok(None) => spec_select_from(
                dexes,
                accounts,
                base_data,
                user_source_owner,
                user_source_data,
                user_destination_owner,
                user_destination_data,
                i + 1,
            ),
            Ok(Some(q)) => if q.amount_out >= base_data.min_amount_out {
                Ok(Some((i, q)))
            } else {
                spec_select_from(
                    dexes,
                    accounts,
                    base_data,
                    user_source_owner,
                    user_source_data,
                    user_destination_owner,
                    user_destination_data,
                    i + 1,
                )
            },
        }
    }
}

/// Whether some venue selector appears twice in the list.
pub open spec fn spec_has_duplicate(dexes: Seq<Dex>) -> bool {
    exists|i: int, j: int| 0 <= i < j < dexes.len() && dexes[i] == dexes[j]
}

/// Whether one quote clears the minimum.
pub open spec fn spec_quote_fits(q: Option<u64>, min_amount_out: u64) -> bool {
    q matches Some(a) && a >= min_amount_out
}

/// First-fit over a bare list of quote amounts (`None` standing for an
/// ineligible venue): the index selected, if any.
pub open spec fn spec_first_fit(quotes: Seq<Option<u64>>, min_amount_out: u64) -> Option<int>
    decreases quotes.len(),
{
    if quotes.len() == 0 {
        None
    } else if spec_quote_fits(quotes[0], min_amount_out) {
        Some(0)
    } else {
        match spec_first_fit(quotes.skip(1), min_amount_out) {
            None => None,
            Some(i) => Some(i + 1),
        }
    }
}

/// Determinism and order law of first-fit selection: for any fixed list of
/// venue quotes and any minimum, the selected index is the lowest index
/// whose quote clears the minimum — independent of the numeric magnitude of
/// any other quote — and selection fails exactly when no quote clears it.
pub proof fn lemma_first_fit_selects_lowest(quotes: Seq<Option<u64>>, min_amount_out: u64)
    ensures
        match spec_first_fit(quotes, min_amount_out) {
            Some(i) => 0 <= i < quotes.len() && spec_quote_fits(quotes[i], min_amount_out)
                && forall|j: int| 0 <= j < i ==> !spec_quote_fits(quotes[j], min_amount_out),
            None => forall|j: int|
                0 <= j < quotes.len() ==> !spec_quote_fits(quotes[j], min_amount_out),
        },
    decreases quotes.len(),
{
    if quotes.len() > 0 && !spec_quote_fits(quotes[0], min_amount_out) {
        let rest = quotes.skip(1);
        lemma_first_fit_selects_lowest(rest, min_amount_out);
        match spec_first_fit(rest, min_amount_out) {
            None => {
                assert forall|j: int| 0 <= j < quotes.len() implies !spec_quote_fits(
                    quotes[j],
                    min_amount_out,
                ) by {
                    if j >= 1 {
                        assert(rest[j - 1] == quotes[j]);
                        assert(!spec_quote_fits(rest[j - 1], min_amount_out));
                    }
                }
            },
            Some(i) => {
                assert(rest[i] == quotes[i + 1]);
                assert forall|j: int| 0 <= j < i + 1 implies !spec_quote_fits(
                    quotes[j],
                    min_amount_out,
                ) by {
                    if j >= 1 {
                        assert(rest[j - 1] == quotes[j]);
                        assert(!spec_quote_fits(rest[j - 1], min_amount_out));
                    }
                }
            },
        }
    }
}

/// The selection law carried onto the orchestrator's own venue walk: when a
/// venue is selected, it is the lowest-indexed venue that fits and no
/// earlier venue erred; when no venue is selected, none fits.
pub proof fn lemma_select_from_first_fit(
    dexes: Seq<Dex>,
    accounts: Seq<AccountData>,
    base_data: BaseData,
    user_source_owner: Address,
    user_source_data: Seq<u8>,
    user_destination_owner: Address,
    user_destination_data: Seq<u8>,
    i: int,
)
    requires
        0 <= i,
    ensures
        spec_select_from(
            dexes,
            accounts,
            base_data,
            user_source_owner,
            user_source_data,
            user_destination_owner,
            user_destination_data,
            i,
        ) matches Ok(Some((k, q))) ==> {
            &&& i <= k < dexes.len()
            &&& spec_venue_quote(
                dexes,
                accounts,
                base_data,
                user_source_owner,
                user_source_data,
                user_destination_owner,
                user_destination_data,
                k,
            ) == Ok::<Option<SwapCalculationResult>, Error>(Some(q))
            &&& q.amount_out >= base_data.min_amount_out
            &&& forall|j: int|
                i <= j < k ==> !spec_venue_fits(
                    dexes,
                    accounts,
                    base_data,
                    user_source_owner,
                    user_source_data,
                    user_destination_owner,
                    user_destination_data,
                    j,
                )
        },
        spec_select_from(
            dexes,
            accounts,
            base_data,
            user_source_owner,
            user_source_data,
            user_destination_owner,
            user_destination_data,
            i,
        ) == Ok::<Option<(int, SwapCalculationResult)>, Error>(None) ==> forall|j: int|
            i <= j < dexes.len() ==> !spec_venue_fits(
                dexes,
                accounts,
                base_data,
                user_source_owner,
                user_source_data,
                user_destination_owner,
                user_destination_data,
                j,
            ),
    decreases dexes.len() - i,
{
    if i < dexes.len() {
        lemma_select_from_first_fit(
            dexes,
            accounts,
            base_data,
            user_source_owner,
            user_source_data,
            user_destination_owner,
            user_destination_data,
            i + 1,
        );
    }
}

/// The trade context a plan quotes every venue against.
pub open spec fn spec_plan_base_data(
    token_mint: Address,
    quote_mint: Address,
    amount_in: u64,
    min_amount_out: u64,
    is_from_quote_to_token: bool,
    with_checks: bool,
) -> BaseData {
    BaseData { token_mint, quote_mint, amount_in, min_amount_out, is_from_quote_to_token, with_checks }
}

/// The destination account's owning program as quoting sees it: the token
/// program when the account is still to be created, its recorded owner
/// otherwise.
pub open spec fn spec_plan_dest_owner(accounts: Seq<AccountData>) -> Address {
    if accounts[4].data@.len() == 0 {
        spec_spl_token_program_id()
    } else {
        accounts[4].owner
    }
}

/// The destination account's record as quoting sees it: the freshly
/// initialized, empty record when the account is still to be created, its
/// stored bytes otherwise.
pub open spec fn spec_plan_dest_data(accounts: Seq<AccountData>, token_mint: Address) -> Seq<u8> {
    if accounts[4].data@.len() == 0 {
        spec_fresh_token_account_bytes(token_mint, accounts[3].key)
    } else {
        accounts[4].data@
    }
}

/// Everything the embedding needs to finish a planned swap: whether the
/// destination account must first be created, the pre-trade balances, and
/// the selected venue with its quote and window.
#[derive(Debug)]
pub struct SwapPlan {
    pub create_token_account: bool,
    pub initial_quote_token_amount: u64,
    pub initial_token_amount: u64,
    pub selected_dex: Dex,
    pub selected_dex_index: usize,
    pub first_account_index: usize,
    pub swap_calculation_result: SwapCalculationResult,
}

/// The orchestrator.
pub struct Processor;

/// The fixed prefix layout of a swap instruction's account list.
pub open spec fn spec_prefix_ok(accounts: Seq<AccountData>) -> bool {
    accounts.len() >= 10
}

/// [`Processor::swap_plan`] as a value.  The guard chain mirrors the
/// instruction's own order: request validation, the fixed-prefix identity
/// and flag checks, the custody record's re-derivations, the balance floor,
/// venue deduplication, then first-fit selection.
pub open spec fn spec_swap_plan(
    dexes: Seq<Dex>,
    accounts: Seq<AccountData>,
    token_mint: Address,
    quote_mint: Address,
    amount_in: u64,
    min_amount_out: u64,
    token_account_pubkey_bump_seed: u8,
    is_from_quote_to_token: bool,
    with_checks: bool,
    token_account_rent_exemption_balance: u64,
) -> Result<SwapPlan, Error> {
    if !is_from_quote_to_token || quote_mint != spec_native_mint_id() {
        Err(Error::NotImplemented)
    } else if token_mint == quote_mint {
        Err(Error::EqualMints)
    } else if amount_in == 0 {
        Err(Error::ZeroAmountIn)
    } else if dexes.len() == 0 {
        Err(Error::ZeroDexesPresented)
    } else if accounts.len() < 10 {
        Err(Error::NotEnoughAccountKeys)
    } else {
        let intermediary = accounts[0];
        let intermediary_trader = accounts[1];
        let quote_token_account = accounts[2];
        let self_authority = accounts[3];
        let token_account = accounts[4];
        let quote_token_mint = accounts[5];
        let token_mint_ = accounts[6];
        let system_program = accounts[7];
        let rent = accounts[8];
        let token_program = accounts[9];
        if token_mint != token_mint_.key {
            Err(Error::InvalidTokenMint)
        } else {
            let checks_outcome: Result<(), Error> = if with_checks {
                match spec_create_program_address(
                    spec_token_account_seeds(
                        intermediary.key,
                        token_mint_.key,
                        token_account_pubkey_bump_seed,
                    ),
                    spec_program_id(),
                ) {
                    None => Err(Error::InvalidSeeds),
                    Some(expected_token_account) => if token_account.key != expected_token_account
                        || quote_token_mint.key == token_mint_.key || quote_token_mint.key
                        != spec_native_mint_id() || system_program.key != spec_system_program_id()
                        || rent.key != spec_sysvar_rent_id() || token_program.key
                        != spec_spl_token_program_id() {
                        Err(Error::InvalidAccountPubkey)
                    } else if !intermediary_trader.is_signer || !intermediary_trader.is_writable
                        || !quote_token_account.is_writable || !token_account.is_writable {
                        Err(Error::InvalidAccountConfigurationFlags)
                    } else {
                        Ok(())
                    },
                }
            } else {
                Ok(())
            };
            match checks_outcome {
                Err(e) => Err(e),
                Ok(()) => if intermediary_trader.lamports < token_account_rent_exemption_balance {
                    Err(Error::InvalidAccountLamports)
                } else if intermediary.data@.len() != INTERMEDIARY_LEN {
                    Err(Error::InvalidLogic)
                } else {
                    let im = spec_intermediary_at(intermediary.data@);
                    if im.is_initialized != 1 {
                        Err(Error::IntermediaryIsNotInitialized)
                    } else if intermediary_trader.key != im.trader {
                        Err(Error::IntermediaryInvalidTrader)
                    } else if quote_token_account.key != im.w_sol_token_account {
                        Err(Error::IntermediaryInvalidWSolTokenAccount)
                    } else {
                        match spec_create_program_address(
                            spec_token_account_seeds(
                                intermediary.key,
                                spec_native_mint_id(),
                                im.w_sol_token_account_pubkey_bump_seed,
                            ),
                            spec_program_id(),
                        ) {
                            None => Err(Error::InvalidSeeds),
                            Some(expected_quote_account) => if quote_token_account.key
                                != expected_quote_account {
                                Err(Error::IntermediaryInvalidWSolTokenAccount)
                            } else if self_authority.key != im.self_authority {
                                Err(Error::IntermediaryInvalidAuthority)
                            } else {
                                match spec_create_program_address(
                                    spec_self_authority_seeds(
                                        intermediary.key,
                                        im.self_authority_pubkey_bump_seed,
                                    ),
                                    spec_program_id(),
                                ) {
                                    None => Err(Error::InvalidSeeds),
                                    Some(expected_authority) => if self_authority.key
                                        != expected_authority {
                                        Err(Error::IntermediaryInvalidAuthority)
                                    } else if !spec_token_account_well_formed(
                                        quote_token_account.data@,
                                    ) {
                                        Err(Error::InvalidAccountData)
                                    } else {
                                        let initial_quote_token_amount = spec_token_account_amount(
                                            quote_token_account.data@,
                                        );
                                        if amount_in > initial_quote_token_amount {
                                            Err(Error::TokenAccountInsufficientAmount)
                                        } else {
                                            let create = token_account.data@.len() == 0;
                                            if !create && !spec_token_account_well_formed(
                                                token_account.data@,
                                            ) {
                                                Err(Error::InvalidAccountData)
                                            } else {
                                                let initial_token_amount = if create {
                                                    0u64
                                                } else {
                                                    spec_token_account_amount(token_account.data@)
                                                };
                                                if spec_has_duplicate(dexes) {
                                                    Err(Error::RepeatableDex)
                                                } else {
                                                    let base_data = spec_plan_base_data(
                                                        token_mint,
                                                        quote_mint,
                                                        amount_in,
                                                        min_amount_out,
                                                        is_from_quote_to_token,
                                                        with_checks,
                                                    );
                                                    let dest_owner = spec_plan_dest_owner(
                                                        accounts,
                                                    );
                                                    let dest_data = spec_plan_dest_data(
                                                        accounts,
                                                        token_mint,
                                                    );
                                                    match spec_select_from(
                                                        dexes,
                                                        accounts,
                                                        base_data,
                                                        quote_token_account.owner,
                                                        quote_token_account.data@,
                                                        dest_owner,
                                                        dest_data,
                                                        0,
                                                    ) {
                                                        Err(e) => Err(e),
                                                        Ok(None) => Err(
                                                            Error::InvalidSwapConditions,
                                                        ),
                                                        Ok(Some((k, q))) => Ok(
                                                            SwapPlan {
                                                                create_token_account: create,
                                                                initial_quote_token_amount,
                                                                initial_token_amount,
                                                                selected_dex: dexes[k],
                                                                selected_dex_index: k as usize,
                                                                first_account_index: spec_first_index(
                                                                    dexes,
                                                                    k,
                                                                ) as usize,
                                                                swap_calculation_result: q,
                                                            },
                                                        ),
                                                    }
                                                }
                                            }
                                        }
                                    },
                                }
                            },
                        }
                    }
                },
            }
        }
    }
}

/// Duplicate-venue rejection law: a venue list naming the same venue twice
/// never yields a plan — the request is rejected, and it is rejected before
/// any venue is quoted (the duplicate guard precedes selection in
/// [`spec_swap_plan`]).
pub proof fn lemma_duplicate_venue_rejected(
    dexes: Seq<Dex>,
    accounts: Seq<AccountData>,
    token_mint: Address,
    quote_mint: Address,
    amount_in: u64,
    min_amount_out: u64,
    token_account_pubkey_bump_seed: u8,
    is_from_quote_to_token: bool,
    with_checks: bool,
    token_account_rent_exemption_balance: u64,
)
    requires
        spec_has_duplicate(dexes),
    ensures
        spec_swap_plan(
            dexes,
            accounts,
            token_mint,
            quote_mint,
            amount_in,
            min_amount_out,
            token_account_pubkey_bump_seed,
            is_from_quote_to_token,
            with_checks,
            token_account_rent_exemption_balance,
        ) is Err,
{
}

/// No-eligible-venue law: a plan is returned only when its selected venue's
/// quote clears the caller's minimum; and when every listed venue is
/// ineligible or quotes below the minimum, no plan is returned — the request
/// fails, with the distinct no-eligible-venue condition once validation has
/// passed (the final arm of [`spec_swap_plan`]).  Quoting is pure over the
/// account snapshots, so a request that fails here has moved no balance.
pub proof fn lemma_no_eligible_venue(
    dexes: Seq<Dex>,
    accounts: Seq<AccountData>,
    token_mint: Address,
    quote_mint: Address,
    amount_in: u64,
    min_amount_out: u64,
    token_account_pubkey_bump_seed: u8,
    is_from_quote_to_token: bool,
    with_checks: bool,
    token_account_rent_exemption_balance: u64,
)
    ensures
        spec_swap_plan(
            dexes,
            accounts,
            token_mint,
            quote_mint,
            amount_in,
            min_amount_out,
            token_account_pubkey_bump_seed,
            is_from_quote_to_token,
            with_checks,
            token_account_rent_exemption_balance,
        ) matches Ok(p) ==> p.swap_calculation_result.amount_out >= min_amount_out,
        (forall|j: int|
            0 <= j < dexes.len() ==> !spec_venue_fits(
                dexes,
                accounts,
                spec_plan_base_data(
                    token_mint,
                    quote_mint,
                    amount_in,
                    min_amount_out,
                    is_from_quote_to_token,
                    with_checks,
                ),
                accounts[2].owner,
                accounts[2].data@,
                spec_plan_dest_owner(accounts),
                spec_plan_dest_data(accounts, token_mint),
                j,
            )) ==> !(spec_swap_plan(
            dexes,
            accounts,
            token_mint,
            quote_mint,
            amount_in,
            min_amount_out,
            token_account_pubkey_bump_seed,
            is_from_quote_to_token,
            with_checks,
            token_account_rent_exemption_balance,
        ) matches Ok(_)),
{
    let base = spec_plan_base_data(
        token_mint,
        quote_mint,
        amount_in,
        min_amount_out,
        is_from_quote_to_token,
        with_checks,
    );
    let dest_owner = spec_plan_dest_owner(accounts);
    let dest_data = spec_plan_dest_data(accounts, token_mint);
    lemma_select_from_first_fit(
        dexes,
        accounts,
        base,
        accounts[2].owner,
        accounts[2].data@,
        dest_owner,
        dest_data,
        0,
    );
    match spec_select_from(
        dexes,
        accounts,
        base,
        accounts[2].owner,
        accounts[2].data@,
        dest_owner,
        dest_data,
        0,
    ) {
        Ok(Some((k, q))) => {
            assert(spec_venue_fits(
                dexes,
                accounts,
                base,
                accounts[2].owner,
                accounts[2].data@,
                dest_owner,
                dest_data,
                k,
            ));
        },
        _ => {},
    }
}

/// A list without duplicates over a two-variant selector holds at most two
/// entries.
proof fn lemma_no_duplicate_len(dexes: Seq<Dex>)
    requires
        !spec_has_duplicate(dexes),
    ensures
        dexes.len() <= 2,
{
    if dexes.len() >= 3 {
        assert(dexes[0] != dexes[1] && dexes[0] != dexes[2] && dexes[1] != dexes[2]);
    }
}

impl Processor {
    /// Validates a swap request end to end and selects the venue to execute:
    /// see [`spec_swap_plan`].  Duplicate venue selectors are rejected
    /// before any venue is quoted, and selection is first-fit in caller
    /// order (see [`lemma_select_from_first_fit`]).
    #[verifier::loop_isolation(false)]
    #[verifier::rlimit(100)]
    #[verifier::spinoff_prover]
    pub fn swap_plan(
        dexes: &Vec<Dex>,
        accounts: &Vec<AccountData>,
        token_mint: Address,
        quote_mint: Address,
        amount_in: u64,
        min_amount_out: u64,
        token_account_pubkey_bump_seed: u8,
        is_from_quote_to_token: bool,
        with_checks: bool,
        token_account_rent_exemption_balance: u64,
    ) -> (r: Result<SwapPlan, Error>)
        ensures
            r == spec_swap_plan(
                dexes@,
                accounts@,
                token_mint,
                quote_mint,
                amount_in,
                min_amount_out,
                token_account_pubkey_bump_seed,
                is_from_quote_to_token,
                with_checks,
                token_account_rent_exemption_balance,
            ),
    {
        if !is_from_quote_to_token || quote_mint != native_mint_id() {
            return Err(Error::NotImplemented);
        }
        if token_mint == quote_mint {
            return Err(Error::EqualMints);
        }
        if amount_in == 0 {
            return Err(Error::ZeroAmountIn);
        }
        if dexes.len() == 0 {
            return Err(Error::ZeroDexesPresented);
        }
        if accounts.len() < 10 {
            return Err(Error::NotEnoughAccountKeys);
        }
        let intermediary = &accounts[0];
        let intermediary_trader = &accounts[1];
        let quote_token_account = &accounts[2];
        let self_authority = &accounts[3];
        let token_account = &accounts[4];
        let quote_token_mint = &accounts[5];
        let token_mint_ = &accounts[6];
        let system_program = &accounts[7];
        let rent = &accounts[8];
        let token_program = &accounts[9];
        if token_mint != token_mint_.key {
            return Err(Error::InvalidTokenMint);
        }
        if with_checks {
            let expected_token_account = match PdaResolver::token_account_create(
                &intermediary.key,
                &token_mint_.key,
                token_account_pubkey_bump_seed,
            ) {
                Ok(a) => a,
                Err(e) => {
                    return Err(e);
                },
            };
            if token_account.key != expected_token_account || quote_token_mint.key
                == token_mint_.key || quote_token_mint.key != native_mint_id()
                || system_program.key != system_program_id() || rent.key != sysvar_rent_id()
                || token_program.key != spl_token_program_id() {
                return Err(Error::InvalidAccountPubkey);
            }
            if !intermediary_trader.is_signer || !intermediary_trader.is_writable
                || !quote_token_account.is_writable || !token_account.is_writable {
                return Err(Error::InvalidAccountConfigurationFlags);
            }
        }
        if intermediary_trader.lamports < token_account_rent_exemption_balance {
            return Err(Error::InvalidAccountLamports);
        }
        let im = match Intermediary::decode(intermediary.data.as_slice()) {
            Some(im) => im,
            None => {
                return Err(Error::InvalidLogic);
            },
        };
        if !im.is_initialized() {
            return Err(Error::IntermediaryIsNotInitialized);
        }
        if intermediary_trader.key != im.trader {
            return Err(Error::IntermediaryInvalidTrader);
        }
        if quote_token_account.key != im.w_sol_token_account {
            return Err(Error::IntermediaryInvalidWSolTokenAccount);
        }
        let expected_quote_account = match PdaResolver::token_account_create(
            &intermediary.key,
            &native_mint_id(),
            im.w_sol_token_account_pubkey_bump_seed,
        ) {
            Ok(a) => a,
            Err(e) => {
                return Err(e);
            },
        };
        if quote_token_account.key != expected_quote_account {
            return Err(Error::IntermediaryInvalidWSolTokenAccount);
        }
        if self_authority.key != im.self_authority {
            return Err(Error::IntermediaryInvalidAuthority);
        }
        let expected_authority = match PdaResolver::self_authority_create(
            &intermediary.key,
            im.self_authority_pubkey_bump_seed,
        ) {
            Ok(a) => a,
            Err(e) => {
                return Err(e);
            },
        };
        if self_authority.key != expected_authority {
            return Err(Error::IntermediaryInvalidAuthority);
        }
        let initial_quote_token_amount = match unpack_token_account_unchecked(
            quote_token_account.data.as_slice(),
        ) {
            Some(v) => v.amount,
            None => {
                return Err(Error::InvalidAccountData);
            },
        };
        if amount_in > initial_quote_token_amount {
            return Err(Error::TokenAccountInsufficientAmount);
        }
        let create = token_account.data.len() == 0;
        let initial_token_amount: u64 = if create {
            0
        } else {
            match unpack_token_account_unchecked(token_account.data.as_slice()) {
                Some(v) => v.amount,
                None => {
                    return Err(Error::InvalidAccountData);
                },
            }
        };
        // Venue deduplication: with two possible selectors, two flags are a
        // complete duplicate check.
        let mut seen_meteora = false;
        let mut seen_raydium = false;
        let mut di: usize = 0;
        while di < dexes.len()
            invariant
                di <= dexes@.len(),
                seen_meteora == (exists|k: int| 0 <= k < di && dexes@[k] == Dex::MeteoraV1),
                seen_raydium == (exists|k: int| 0 <= k < di && dexes@[k] == Dex::RaydiumV4),
                !(exists|i2: int, j2: int| 0 <= i2 < j2 < di && dexes@[i2] == dexes@[j2]),
            decreases dexes@.len() - di,
        {
            let d = dexes[di];
            match d {
                Dex::MeteoraV1 => {
                    if seen_meteora {
                        assert(spec_has_duplicate(dexes@));
                        return Err(Error::RepeatableDex);
                    }
                    seen_meteora = true;
                },
                Dex::RaydiumV4 => {
                    if seen_raydium {
                        assert(spec_has_duplicate(dexes@));
                        return Err(Error::RepeatableDex);
                    }
                    seen_raydium = true;
                },
            }
            di = di + 1;
        }
        proof {
            assert(!spec_has_duplicate(dexes@));
            lemma_no_duplicate_len(dexes@);
        }
        let base_data = BaseData {
            token_mint,
            quote_mint,
            amount_in,
            min_amount_out,
            is_from_quote_to_token,
            with_checks,
        };
        // When the destination account does not yet exist, the engine creates
        // and initializes it before quoting; quotes therefore run against the
        // freshly initialized record.
        let destination: AccountData = if create {
            AccountData {
                key: token_account.key,
                owner: spl_token_program_id(),
                is_writable: token_account.is_writable,
                is_signer: token_account.is_signer,
                lamports: token_account.lamports,
                data: fresh_token_account_bytes(&token_mint, &self_authority.key),
            }
        } else {
            AccountData {
                key: token_account.key,
                owner: token_account.owner,
                is_writable: token_account.is_writable,
                is_signer: token_account.is_signer,
                lamports: token_account.lamports,
                data: slice_to_vec(token_account.data.as_slice()),
            }
        };
        let ghost dest_owner = spec_plan_dest_owner(accounts@);
        let ghost dest_data = spec_plan_dest_data(accounts@, token_mint);
        proof {
            assert(dest_owner == destination.owner);
            assert(dest_data == destination.data@);
            assert(base_data == spec_plan_base_data(
                token_mint,
                quote_mint,
                amount_in,
                min_amount_out,
                is_from_quote_to_token,
                with_checks,
            ));
        }
        let meteora = MeteoraV1;
        let raydium = RaydiumV4;
        let mut first_account_index: usize = 10;
        let mut i: usize = 0;
        while i < dexes.len()
            invariant
                i <= dexes@.len(),
                dexes@.len() <= 2,
                first_account_index == spec_first_index(dexes@, i as int),
                first_account_index <= 10 + 16 * i,
                spec_select_from(
                    dexes@,
                    accounts@,
                    base_data,
                    quote_token_account.owner,
                    quote_token_account.data@,
                    dest_owner,
                    dest_data,
                    i as int,
                ) == spec_select_from(
                    dexes@,
                    accounts@,
                    base_data,
                    quote_token_account.owner,
                    quote_token_account.data@,
                    dest_owner,
                    dest_data,
                    0,
                ),
            decreases dexes@.len() - i,
        {
            let d = dexes[i];
            let quote = match d {
                Dex::MeteoraV1 => meteora.do_swap_calculation(
                    accounts,
                    &base_data,
                    first_account_index,
                ),
                Dex::RaydiumV4 => raydium.do_swap_calculation(
                    accounts,
                    &base_data,
                    quote_token_account,
                    &destination,
                    first_account_index,
                ),
            };
            match quote {
                Err(e) => {
                    return Err(e);
                },
                Ok(None) => {},
                Ok(Some(q)) => {
                    if q.amount_out >= min_amount_out {
                        return Ok(
                            SwapPlan {
                                create_token_account: create,
                                initial_quote_token_amount,
                                initial_token_amount,
                                selected_dex: d,
                                selected_dex_index: i,
                                first_account_index,
                                swap_calculation_result: q,
                            },
                        );
                    }
                },
            }
            first_account_index = first_account_index + (match d {
                Dex::MeteoraV1 => 14usize,
                Dex::RaydiumV4 => 16usize,
            });
            i = i + 1;
        }
        Err(Error::InvalidSwapConditions)
    }

    /// The post-execution balance invariant: after the chosen venue ran and
    /// the holding account's balance was re-synchronized, the quote holding
    /// balance may have decreased by at most `amount_in`, and the destination
    /// balance must have grown by at least the caller's minimum.  A violation
    /// means the executed venue's real behaviour diverged from its own quote,
    /// and aborts the instruction.
    pub fn swap_settle(
        initial_quote_token_amount: u64,
        new_quote_token_amount: u64,
        initial_token_amount: u64,
        new_token_amount: u64,
        amount_in: u64,
        min_amount_out: u64,
    ) -> (r: Result<(), Error>)
        requires
            amount_in <= initial_quote_token_amount,
        ensures
            r is Ok <==> (new_quote_token_amount >= initial_quote_token_amount - amount_in
                && new_token_amount >= initial_token_amount + min_amount_out),
            r is Err ==> r == Err::<(), Error>(Error::TokenAccountInvalidAmount),
    {
        if new_quote_token_amount < initial_quote_token_amount - amount_in || (new_token_amount
            as u128) < (initial_token_amount as u128) + (min_amount_out as u128) {
            return Err(Error::TokenAccountInvalidAmount);
        }
        Ok(())
    }
}

} // verus!
