//! The orchestrator end to end: request validation, custody-record
//! re-derivation, duplicate rejection, first-fit venue selection in caller
//! order, and the settlement invariant.
use intermediary::account::{Address, AccountData};
use intermediary::error::Error;
use intermediary::pda::PdaResolver;
use intermediary::processor::Processor;
use intermediary::spl::fresh_token_account_bytes;
use intermediary::state::Dex;
use intermediary::{meteora_v1_program_id, meteora_v1_vault_program_id, native_mint_id,
    raydium_v4_program_id, spl_token_program_id, sysvar_clock_id, sysvar_rent_id,
    system_program_id};

fn addr(n: u8) -> Address {
    Address { w0: n as u64, w1: 0x1111, w2: 0x2222, w3: n as u64 + 7 }
}

fn push_addr(v: &mut Vec<u8>, a: &Address) {
    v.extend_from_slice(&a.to_bytes());
}

fn push_u64(v: &mut Vec<u8>, x: u64) {
    v.extend_from_slice(&x.to_le_bytes());
}

fn acct(key: Address, owner: Address, data: Vec<u8>) -> AccountData {
    AccountData { key, owner, is_writable: true, is_signer: false, lamports: 0, data }
}

fn token_account_data(mint: &Address, owner: &Address, amount: u64) -> Vec<u8> {
    let mut d = fresh_token_account_bytes(mint, owner);
    d[64..72].copy_from_slice(&amount.to_le_bytes());
    d
}

fn mint_data(supply: u64) -> Vec<u8> {
    let mut d = vec![0u8; 82];
    d[36..44].copy_from_slice(&supply.to_le_bytes());
    d[45] = 1;
    d
}

fn clock_data(slot: u64, ts: i64) -> Vec<u8> {
    let mut d: Vec<u8> = Vec::new();
    push_u64(&mut d, slot);
    push_u64(&mut d, 0);
    push_u64(&mut d, 0);
    push_u64(&mut d, 0);
    push_u64(&mut d, ts as u64);
    d
}

fn pool_record(token_a_mint: &Address, token_b_mint: &Address) -> Vec<u8> {
    let zero = Address { w0: 0, w1: 0, w2: 0, w3: 0 };
    let mut d: Vec<u8> = Vec::new();
    push_addr(&mut d, &addr(90));
    push_addr(&mut d, token_a_mint);
    push_addr(&mut d, token_b_mint);
    push_addr(&mut d, &addr(91));
    push_addr(&mut d, &addr(92));
    push_addr(&mut d, &addr(93));
    push_addr(&mut d, &addr(94));
    d.push(250);
    d.push(1);
    push_addr(&mut d, &addr(95));
    push_addr(&mut d, &addr(96));
    push_u64(&mut d, 11);
    d.extend_from_slice(&[0u8; 24]);
    push_u64(&mut d, 25);
    push_u64(&mut d, 10_000);
    push_u64(&mut d, 0);
    push_u64(&mut d, 1);
    d.push(1);
    push_addr(&mut d, &zero);
    push_u64(&mut d, 0);
    push_u64(&mut d, 0); // activation point: already active
    push_addr(&mut d, &zero);
    push_addr(&mut d, &zero);
    d.push(0);
    push_u64(&mut d, 0);
    push_addr(&mut d, &zero);
    push_u64(&mut d, 0);
    push_u64(&mut d, 0);
    d.extend_from_slice(&[0u8; 342]);
    d.push(0);
    d
}

fn vault_record(total_amount: u64) -> Vec<u8> {
    let zero = Address { w0: 0, w1: 0, w2: 0, w3: 0 };
    let mut d: Vec<u8> = Vec::new();
    d.push(1);
    d.push(0);
    d.push(0);
    push_u64(&mut d, total_amount);
    push_addr(&mut d, &addr(97));
    push_addr(&mut d, &zero);
    push_addr(&mut d, &zero);
    push_addr(&mut d, &zero);
    for _ in 0..30 {
        push_addr(&mut d, &zero);
    }
    push_addr(&mut d, &zero);
    push_addr(&mut d, &zero);
    push_addr(&mut d, &zero);
    push_u64(&mut d, 0);
    push_u64(&mut d, 0);
    push_u64(&mut d, 0);
    d
}

fn with_discriminator(body: Vec<u8>) -> Vec<u8> {
    let mut d = vec![0u8; 8];
    d.extend_from_slice(&body);
    d
}

fn amm_record(status: u64, coin_mint: &Address, pc_mint: &Address) -> Vec<u8> {
    let zero = Address { w0: 0, w1: 0, w2: 0, w3: 0 };
    let mut d: Vec<u8> = Vec::new();
    push_u64(&mut d, status);
    for _ in 0..15 {
        push_u64(&mut d, 0);
    }
    for x in [5u64, 10_000, 25, 10_000, 12, 100, 25, 10_000] {
        push_u64(&mut d, x);
    }
    for _ in 0..8 {
        push_u64(&mut d, 0);
    }
    d.extend_from_slice(&0u128.to_le_bytes());
    d.extend_from_slice(&0u128.to_le_bytes());
    push_u64(&mut d, 0);
    d.extend_from_slice(&0u128.to_le_bytes());
    d.extend_from_slice(&0u128.to_le_bytes());
    push_u64(&mut d, 0);
    push_addr(&mut d, &addr(80));
    push_addr(&mut d, &addr(81));
    push_addr(&mut d, coin_mint);
    push_addr(&mut d, pc_mint);
    push_addr(&mut d, &zero);
    push_addr(&mut d, &addr(82));
    push_addr(&mut d, &addr(83));
    push_addr(&mut d, &addr(84));
    push_addr(&mut d, &zero);
    for _ in 0..8 {
        push_u64(&mut d, 0);
    }
    push_addr(&mut d, &zero);
    push_u64(&mut d, 0);
    push_u64(&mut d, 0);
    push_u64(&mut d, 0);
    push_u64(&mut d, 0);
    d
}

fn meteora_window(quote_mint: &Address, token_mint: &Address) -> Vec<AccountData> {
    let spl = spl_token_program_id();
    vec![
        acct(meteora_v1_program_id(), addr(0), Vec::new()),
        acct(sysvar_clock_id(), addr(0), clock_data(100, 1_000)),
        acct(addr(120), addr(0), with_discriminator(pool_record(quote_mint, token_mint))),
        acct(addr(91), addr(0), with_discriminator(vault_record(1_000_000))),
        acct(addr(92), addr(0), with_discriminator(vault_record(2_000_000))),
        acct(addr(121), spl, token_account_data(quote_mint, &addr(91), 1_000_000)),
        acct(addr(122), spl, token_account_data(token_mint, &addr(92), 2_000_000)),
        acct(addr(123), addr(0), mint_data(1_000_000)),
        acct(addr(124), addr(0), mint_data(2_000_000)),
        acct(addr(93), spl, token_account_data(&addr(90), &addr(120), 1_000_000)),
        acct(addr(94), spl, token_account_data(&addr(90), &addr(120), 2_000_000)),
        acct(addr(95), spl, token_account_data(quote_mint, &addr(120), 0)),
        acct(meteora_v1_vault_program_id(), addr(0), Vec::new()),
        acct(spl, addr(0), Vec::new()),
    ]
}

fn raydium_window(quote_mint: &Address, token_mint: &Address) -> Vec<AccountData> {
    let spl = spl_token_program_id();
    vec![
        acct(raydium_v4_program_id(), addr(0), Vec::new()),
        acct(sysvar_clock_id(), addr(0), clock_data(100, 1_000)),
        acct(spl, addr(0), Vec::new()),
        acct(addr(60), raydium_v4_program_id(), amm_record(6, token_mint, quote_mint)),
        acct(addr(85), addr(0), Vec::new()),
        acct(addr(82), addr(84), Vec::new()),
        acct(addr(80), spl, token_account_data(token_mint, &addr(85), 1_000_000)),
        acct(addr(81), spl, token_account_data(quote_mint, &addr(85), 500_000)),
        acct(addr(84), addr(0), Vec::new()),
        acct(addr(83), addr(84), Vec::new()),
        acct(addr(71), addr(0), Vec::new()),
        acct(addr(72), addr(0), Vec::new()),
        acct(addr(70), addr(0), Vec::new()),
        acct(addr(73), addr(0), Vec::new()),
        acct(addr(74), addr(0), Vec::new()),
        acct(addr(75), addr(0), Vec::new()),
    ]
}

struct Fixture {
    accounts: Vec<AccountData>,
    token_mint: Address,
    quote_mint: Address,
}

/// A fully valid account list: the ten-account prefix wired to a custody
/// record whose addresses really re-derive, followed by the windows of
/// `dexes` in order.
fn fixture(dexes: &[Dex], quote_balance: u64) -> Fixture {
    let quote_mint = native_mint_id();
    let token_mint = addr(2);
    let custody = addr(40);
    let trader = addr(11);
    let (w_sol, w_bump) = PdaResolver::token_account_find(&custody, &quote_mint).unwrap();
    let (temp, t_bump) = PdaResolver::temporary_w_sol_token_account_find(&custody).unwrap();
    let (authority, a_bump) = PdaResolver::self_authority_find(&custody).unwrap();
    let mut record: Vec<u8> = Vec::new();
    push_addr(&mut record, &addr(10)); // manager
    push_addr(&mut record, &trader);
    push_addr(&mut record, &w_sol);
    push_addr(&mut record, &temp);
    push_addr(&mut record, &addr(14)); // lookup table
    push_addr(&mut record, &authority);
    record.extend_from_slice(&[w_bump, t_bump, a_bump, 1]);
    let spl = spl_token_program_id();
    let mut accounts = vec![
        acct(custody, addr(0), record),
        AccountData {
            key: trader,
            owner: addr(0),
            is_writable: true,
            is_signer: true,
            lamports: 1_000_000,
            data: Vec::new(),
        },
        acct(w_sol, spl, token_account_data(&quote_mint, &authority, quote_balance)),
        acct(authority, addr(0), Vec::new()),
        acct(addr(112), spl, Vec::new()), // destination: to be created
        acct(quote_mint, addr(0), Vec::new()),
        acct(token_mint, addr(0), Vec::new()),
        acct(system_program_id(), addr(0), Vec::new()),
        acct(sysvar_rent_id(), addr(0), Vec::new()),
        acct(spl, addr(0), Vec::new()),
    ];
    for d in dexes {
        let window = match d {
            Dex::MeteoraV1 => meteora_window(&quote_mint, &token_mint),
            Dex::RaydiumV4 => raydium_window(&quote_mint, &token_mint),
        };
        accounts.extend(window);
    }
    Fixture { accounts, token_mint, quote_mint }
}

fn plan(f: &Fixture, dexes: Vec<Dex>, amount_in: u64, min_amount_out: u64) -> Result<intermediary::processor::SwapPlan, Error> {
    Processor::swap_plan(
        &dexes,
        &f.accounts,
        f.token_mint,
        f.quote_mint,
        amount_in,
        min_amount_out,
        0,
        true,
        false,
        0,
    )
}

#[test]
fn selects_the_single_fitting_venue() {
    let f = fixture(&[Dex::MeteoraV1], 1_000_000);
    let p = plan(&f, vec![Dex::MeteoraV1], 10_000, 19_000).unwrap();
    assert_eq!(p.selected_dex, Dex::MeteoraV1);
    assert_eq!(p.selected_dex_index, 0);
    assert_eq!(p.first_account_index, 10);
    assert_eq!(p.swap_calculation_result.amount_out, 19_752);
    assert_eq!(p.swap_calculation_result.amount_in_fee, 25);
    assert!(p.create_token_account);
    assert_eq!(p.initial_quote_token_amount, 1_000_000);
    assert_eq!(p.initial_token_amount, 0);
}

#[test]
fn first_fit_takes_caller_order_not_best_price() {
    // Both venues clear the minimum; the first-listed wins even though the
    // later one quotes more (19,559 vs 19,752).
    let f = fixture(&[Dex::RaydiumV4, Dex::MeteoraV1], 1_000_000);
    let p = plan(&f, vec![Dex::RaydiumV4, Dex::MeteoraV1], 10_000, 19_000).unwrap();
    assert_eq!(p.selected_dex, Dex::RaydiumV4);
    assert_eq!(p.selected_dex_index, 0);
    assert_eq!(p.first_account_index, 10);
    assert_eq!(p.swap_calculation_result.amount_out, 19_559);
}

#[test]
fn first_fit_advances_past_an_under_minimum_venue() {
    // The first venue's 19,559 misses the minimum; the second's 19,752
    // clears it, without failing the instruction.
    let f = fixture(&[Dex::RaydiumV4, Dex::MeteoraV1], 1_000_000);
    let p = plan(&f, vec![Dex::RaydiumV4, Dex::MeteoraV1], 10_000, 19_600).unwrap();
    assert_eq!(p.selected_dex, Dex::MeteoraV1);
    assert_eq!(p.selected_dex_index, 1);
    assert_eq!(p.first_account_index, 26);
    assert_eq!(p.swap_calculation_result.amount_out, 19_752);
}

#[test]
fn no_eligible_venue_fails_the_instruction() {
    // Both quotes fall below the minimum: the whole request fails with the
    // distinct no-eligible-venue condition.
    let f = fixture(&[Dex::RaydiumV4, Dex::MeteoraV1], 1_000_000);
    let r = plan(&f, vec![Dex::RaydiumV4, Dex::MeteoraV1], 10_000, 100_000);
    assert_eq!(r.unwrap_err(), Error::InvalidSwapConditions);
}

#[test]
fn duplicate_venue_is_rejected_before_quoting() {
    // The duplicated list is rejected even though the accounts after the
    // prefix would not support quoting at all.
    let f = fixture(&[Dex::MeteoraV1], 1_000_000);
    let r = plan(&f, vec![Dex::MeteoraV1, Dex::MeteoraV1], 10_000, 0);
    assert_eq!(r.unwrap_err(), Error::RepeatableDex);
}

#[test]
fn request_validation_order() {
    let f = fixture(&[Dex::MeteoraV1], 1_000_000);
    // Reverse direction is not implemented.
    let r = Processor::swap_plan(
        &vec![Dex::MeteoraV1],
        &f.accounts,
        f.token_mint,
        f.quote_mint,
        10_000,
        0,
        0,
        false,
        false,
        0,
    );
    assert_eq!(r.unwrap_err(), Error::NotImplemented);
    // A non-native quote currency is not implemented either.
    let r = Processor::swap_plan(
        &vec![Dex::MeteoraV1],
        &f.accounts,
        f.token_mint,
        addr(9),
        10_000,
        0,
        0,
        true,
        false,
        0,
    );
    assert_eq!(r.unwrap_err(), Error::NotImplemented);
    // Equal currencies.
    let r = Processor::swap_plan(
        &vec![Dex::MeteoraV1],
        &f.accounts,
        f.quote_mint,
        f.quote_mint,
        10_000,
        0,
        0,
        true,
        false,
        0,
    );
    assert_eq!(r.unwrap_err(), Error::EqualMints);
    // A zero input.
    assert_eq!(plan(&f, vec![Dex::MeteoraV1], 0, 0).unwrap_err(), Error::ZeroAmountIn);
    // An empty venue list.
    assert_eq!(plan(&f, vec![], 10_000, 0).unwrap_err(), Error::ZeroDexesPresented);
    // A mint account that does not match the request.
    let r = Processor::swap_plan(
        &vec![Dex::MeteoraV1],
        &f.accounts,
        addr(33),
        f.quote_mint,
        10_000,
        0,
        0,
        true,
        false,
        0,
    );
    assert_eq!(r.unwrap_err(), Error::InvalidTokenMint);
    // Too few accounts for even the prefix.
    let few = f.accounts[..9].iter().map(clone_account).collect::<Vec<_>>();
    let r = Processor::swap_plan(
        &vec![Dex::MeteoraV1],
        &few,
        f.token_mint,
        f.quote_mint,
        10_000,
        0,
        0,
        true,
        false,
        0,
    );
    assert_eq!(r.unwrap_err(), Error::NotEnoughAccountKeys);
}

fn clone_account(a: &AccountData) -> AccountData {
    AccountData {
        key: a.key,
        owner: a.owner,
        is_writable: a.is_writable,
        is_signer: a.is_signer,
        lamports: a.lamports,
        data: a.data.clone(),
    }
}

#[test]
fn custody_record_checks() {
    // An uninitialized record.
    let mut f = fixture(&[Dex::MeteoraV1], 1_000_000);
    let n = f.accounts[0].data.len();
    f.accounts[0].data[n - 1] = 0;
    assert_eq!(
        plan(&f, vec![Dex::MeteoraV1], 10_000, 0).unwrap_err(),
        Error::IntermediaryIsNotInitialized
    );
    // A caller who is not the recorded trader.
    let mut f = fixture(&[Dex::MeteoraV1], 1_000_000);
    f.accounts[1].key = addr(99);
    assert_eq!(
        plan(&f, vec![Dex::MeteoraV1], 10_000, 0).unwrap_err(),
        Error::IntermediaryInvalidTrader
    );
    // A holding account that does not match the record.
    let mut f = fixture(&[Dex::MeteoraV1], 1_000_000);
    f.accounts[2].key = addr(99);
    assert_eq!(
        plan(&f, vec![Dex::MeteoraV1], 10_000, 0).unwrap_err(),
        Error::IntermediaryInvalidWSolTokenAccount
    );
    // An authority that does not match the record.
    let mut f = fixture(&[Dex::MeteoraV1], 1_000_000);
    f.accounts[3].key = addr(99);
    assert_eq!(
        plan(&f, vec![Dex::MeteoraV1], 10_000, 0).unwrap_err(),
        Error::IntermediaryInvalidAuthority
    );
    // A stored bump that re-derives to a different address.
    let mut f = fixture(&[Dex::MeteoraV1], 1_000_000);
    f.accounts[0].data[194] = f.accounts[0].data[194].wrapping_add(1);
    let e = plan(&f, vec![Dex::MeteoraV1], 10_000, 0).unwrap_err();
    assert!(e == Error::IntermediaryInvalidAuthority || e == Error::InvalidSeeds);
    // A trader short of the destination account's rent.
    let f = fixture(&[Dex::MeteoraV1], 1_000_000);
    let r = Processor::swap_plan(
        &vec![Dex::MeteoraV1],
        &f.accounts,
        f.token_mint,
        f.quote_mint,
        10_000,
        0,
        0,
        true,
        false,
        2_000_000,
    );
    assert_eq!(r.unwrap_err(), Error::InvalidAccountLamports);
}

#[test]
fn insufficient_holding_balance_is_rejected() {
    let f = fixture(&[Dex::MeteoraV1], 5_000);
    assert_eq!(
        plan(&f, vec![Dex::MeteoraV1], 10_000, 0).unwrap_err(),
        Error::TokenAccountInsufficientAmount
    );
}

#[test]
fn settlement_invariant() {
    // A clean settlement: the holding account lost exactly the input, the
    // destination gained at least the minimum.
    assert_eq!(Processor::swap_settle(1_000_000, 990_000, 0, 19_752, 10_000, 19_000), Ok(()));
    // The holding account lost more than the input: abort.
    assert_eq!(
        Processor::swap_settle(1_000_000, 989_999, 0, 19_752, 10_000, 19_000),
        Err(Error::TokenAccountInvalidAmount)
    );
    // The destination gained less than the minimum: abort.
    assert_eq!(
        Processor::swap_settle(1_000_000, 990_000, 0, 18_999, 10_000, 19_000),
        Err(Error::TokenAccountInvalidAmount)
    );
    // Exactly at both bounds settles.
    assert_eq!(Processor::swap_settle(10_000, 0, 5, 19_005, 10_000, 19_000), Ok(()));
}
