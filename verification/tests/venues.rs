//! Full venue quotes over hand-assembled account windows: the share-vault
//! venue's constant-product scenario and activation gate, and the
//! order-book venue's status transitions, book replay and liquidity guard.
use intermediary::account::{Address, AccountData};
use intermediary::dex::{BaseData, CpiAccount};
use intermediary::dex::meteora_v1::MeteoraV1;
use intermediary::dex::raydium_v4::RaydiumV4;
use intermediary::error::Error;
use intermediary::spl::fresh_token_account_bytes;
use intermediary::{meteora_v1_program_id, meteora_v1_vault_program_id, raydium_v4_program_id,
    spl_token_program_id, sysvar_clock_id};

fn addr(n: u8) -> Address {
    Address { w0: n as u64, w1: 0x1111, w2: 0x2222, w3: n as u64 + 7 }
}

fn push_addr(v: &mut Vec<u8>, a: &Address) {
    v.extend_from_slice(&a.to_bytes());
}

fn push_u64(v: &mut Vec<u8>, x: u64) {
    v.extend_from_slice(&x.to_le_bytes());
}

fn acct(key: Address, owner: Address, data: Vec<u8>) -> AccountData {
    AccountData { key, owner, is_writable: true, is_signer: false, lamports: 0, data }
}

fn token_account_data(mint: &Address, owner: &Address, amount: u64) -> Vec<u8> {
    let mut d = fresh_token_account_bytes(mint, owner);
    d[64..72].copy_from_slice(&amount.to_le_bytes());
    d
}

fn mint_data(supply: u64) -> Vec<u8> {
    let mut d = vec![0u8; 82];
    d[36..44].copy_from_slice(&supply.to_le_bytes());
    d[45] = 1;
    d
}

fn clock_data(slot: u64, ts: i64) -> Vec<u8> {
    let mut d: Vec<u8> = Vec::new();
    push_u64(&mut d, slot);
    push_u64(&mut d, 0);
    push_u64(&mut d, 0);
    push_u64(&mut d, 0);
    push_u64(&mut d, ts as u64);
    d
}

fn pool_record(token_a_mint: &Address, token_b_mint: &Address, activation_point: u64) -> Vec<u8> {
    let zero = Address { w0: 0, w1: 0, w2: 0, w3: 0 };
    let mut d: Vec<u8> = Vec::new();
    push_addr(&mut d, &addr(90));
    push_addr(&mut d, token_a_mint);
    push_addr(&mut d, token_b_mint);
    push_addr(&mut d, &addr(91));
    push_addr(&mut d, &addr(92));
    push_addr(&mut d, &addr(93));
    push_addr(&mut d, &addr(94));
    d.push(250);
    d.push(1); // enabled
    push_addr(&mut d, &addr(95));
    push_addr(&mut d, &addr(96));
    push_u64(&mut d, 11);
    d.extend_from_slice(&[0u8; 24]);
    push_u64(&mut d, 25); // trade fee 25 / 10,000
    push_u64(&mut d, 10_000);
    push_u64(&mut d, 0); // protocol fee 0 / 1
    push_u64(&mut d, 1);
    d.push(1); // permissionless
    push_addr(&mut d, &zero); // no staking extension
    push_u64(&mut d, 0);
    push_u64(&mut d, activation_point);
    push_addr(&mut d, &zero);
    push_addr(&mut d, &zero);
    d.push(0); // activation by slot
    push_u64(&mut d, 0);
    push_addr(&mut d, &zero);
    push_u64(&mut d, 0);
    push_u64(&mut d, 0);
    d.extend_from_slice(&[0u8; 342]);
    d.push(0); // constant product
    d
}

fn vault_record(total_amount: u64) -> Vec<u8> {
    let zero = Address { w0: 0, w1: 0, w2: 0, w3: 0 };
    let mut d: Vec<u8> = Vec::new();
    d.push(1);
    d.push(0);
    d.push(0);
    push_u64(&mut d, total_amount);
    push_addr(&mut d, &addr(97));
    push_addr(&mut d, &zero);
    push_addr(&mut d, &zero);
    push_addr(&mut d, &zero);
    for _ in 0..30 {
        push_addr(&mut d, &zero);
    }
    push_addr(&mut d, &zero);
    push_addr(&mut d, &zero);
    push_addr(&mut d, &zero);
    push_u64(&mut d, 0);
    push_u64(&mut d, 0);
    push_u64(&mut d, 0);
    d
}

fn with_discriminator(body: Vec<u8>) -> Vec<u8> {
    let mut d = vec![0u8; 8];
    d.extend_from_slice(&body);
    d
}

/// The 14-account window of the share-vault venue, wired for a pool with
/// token A = the quote mint and token B = the target mint, 1:1 share
/// pricing, reserves in/out 1,000,000 / 2,000,000.
fn meteora_window(quote_mint: &Address, token_mint: &Address, activation_point: u64, out_vault_token_balance: u64) -> Vec<AccountData> {
    let spl = spl_token_program_id();
    vec![
        acct(meteora_v1_program_id(), addr(0), Vec::new()),
        acct(sysvar_clock_id(), addr(0), clock_data(100, 1_000)),
        acct(addr(120), addr(0), with_discriminator(pool_record(quote_mint, token_mint, activation_point))),
        acct(addr(91), addr(0), with_discriminator(vault_record(1_000_000))),
        acct(addr(92), addr(0), with_discriminator(vault_record(2_000_000))),
        acct(addr(121), spl, token_account_data(quote_mint, &addr(91), 1_000_000)),
        acct(addr(122), spl, token_account_data(token_mint, &addr(92), out_vault_token_balance)),
        acct(addr(123), addr(0), mint_data(1_000_000)),
        acct(addr(124), addr(0), mint_data(2_000_000)),
        acct(addr(93), spl, token_account_data(&addr(90), &addr(120), 1_000_000)),
        acct(addr(94), spl, token_account_data(&addr(90), &addr(120), 2_000_000)),
        acct(addr(95), spl, token_account_data(quote_mint, &addr(120), 0)),
        acct(meteora_v1_vault_program_id(), addr(0), Vec::new()),
        acct(spl, addr(0), Vec::new()),
    ]
}

fn base(quote_mint: Address, token_mint: Address, amount_in: u64) -> BaseData {
    BaseData {
        token_mint,
        quote_mint,
        amount_in,
        min_amount_out: 0,
        is_from_quote_to_token: true,
        with_checks: false,
    }
}

#[test]
fn meteora_constant_product_quote() {
    let quote_mint = addr(1);
    let token_mint = addr(2);
    let accounts = meteora_window(&quote_mint, &token_mint, 0, 2_000_000);
    let r = MeteoraV1.do_swap_calculation(&accounts, &base(quote_mint, token_mint, 10_000), 0);
    let q = r.unwrap().expect("eligible");
    assert_eq!(q.amount_in_fee, 25);
    assert_eq!(q.amount_out, 19_752);
    assert_eq!(q.pool, addr(120));
}

#[test]
fn meteora_activation_gate_in_future_is_ineligible() {
    let quote_mint = addr(1);
    let token_mint = addr(2);
    // The pool activates at a far-future slot: no quote, whatever the
    // reserves.
    let accounts = meteora_window(&quote_mint, &token_mint, u64::MAX, 2_000_000);
    let r = MeteoraV1.do_swap_calculation(&accounts, &base(quote_mint, token_mint, 10_000), 0);
    assert_eq!(r.unwrap(), None);
}

#[test]
fn meteora_never_quotes_beyond_real_balance() {
    let quote_mint = addr(1);
    let token_mint = addr(2);
    // The output vault's real token balance is one unit short of the
    // computed output: the venue reports itself ineligible.
    let accounts = meteora_window(&quote_mint, &token_mint, 0, 19_751);
    let r = MeteoraV1.do_swap_calculation(&accounts, &base(quote_mint, token_mint, 10_000), 0);
    assert_eq!(r.unwrap(), None);
    // With exactly the computed output available, the quote stands.
    let accounts2 = meteora_window(&quote_mint, &token_mint, 0, 19_752);
    let r2 = MeteoraV1.do_swap_calculation(&accounts2, &base(quote_mint, token_mint, 10_000), 0);
    assert_eq!(r2.unwrap().unwrap().amount_out, 19_752);
}

#[test]
fn meteora_rejects_wrong_program_and_mint() {
    let quote_mint = addr(1);
    let token_mint = addr(2);
    let mut accounts = meteora_window(&quote_mint, &token_mint, 0, 2_000_000);
    accounts[0].key = addr(3);
    let r = MeteoraV1.do_swap_calculation(&accounts, &base(quote_mint, token_mint, 10_000), 0);
    assert_eq!(r.unwrap_err(), Error::InvalidAccountPubkey);
    // A pool whose currencies match neither side of the trade is a caller
    // bug, not a skip.
    let accounts2 = meteora_window(&addr(8), &addr(9), 0, 2_000_000);
    let r2 = MeteoraV1.do_swap_calculation(&accounts2, &base(quote_mint, token_mint, 10_000), 0);
    assert_eq!(r2.unwrap_err(), Error::InvalidTokenMint);
}

fn amm_record(status: u64, coin_mint: &Address, pc_mint: &Address, pool_open_time: u64, orderbook_to_init_time: u64) -> Vec<u8> {
    let zero = Address { w0: 0, w1: 0, w2: 0, w3: 0 };
    let mut d: Vec<u8> = Vec::new();
    push_u64(&mut d, status);
    for _ in 0..15 {
        push_u64(&mut d, 0);
    }
    for x in [5u64, 10_000, 25, 10_000, 12, 100, 25, 10_000] {
        push_u64(&mut d, x);
    }
    push_u64(&mut d, 0);
    push_u64(&mut d, 0);
    push_u64(&mut d, 0);
    push_u64(&mut d, 0);
    push_u64(&mut d, pool_open_time);
    push_u64(&mut d, 0);
    push_u64(&mut d, 0);
    push_u64(&mut d, orderbook_to_init_time);
    d.extend_from_slice(&0u128.to_le_bytes());
    d.extend_from_slice(&0u128.to_le_bytes());
    push_u64(&mut d, 0);
    d.extend_from_slice(&0u128.to_le_bytes());
    d.extend_from_slice(&0u128.to_le_bytes());
    push_u64(&mut d, 0);
    push_addr(&mut d, &addr(80));
    push_addr(&mut d, &addr(81));
    push_addr(&mut d, coin_mint);
    push_addr(&mut d, pc_mint);
    push_addr(&mut d, &zero);
    push_addr(&mut d, &addr(82)); // open_orders
    push_addr(&mut d, &addr(83)); // market
    push_addr(&mut d, &addr(84)); // market_program
    push_addr(&mut d, &zero);
    for _ in 0..8 {
        push_u64(&mut d, 0);
    }
    push_addr(&mut d, &zero);
    push_u64(&mut d, 0);
    push_u64(&mut d, 0);
    push_u64(&mut d, 0);
    push_u64(&mut d, 0);
    d
}

fn padded(body: Vec<u8>) -> Vec<u8> {
    let mut d: Vec<u8> = Vec::new();
    d.extend_from_slice(b"serum");
    d.extend_from_slice(&body);
    d.extend_from_slice(b"padding");
    d
}

fn market_record(event_q: &Address) -> Vec<u8> {
    let zero = Address { w0: 0, w1: 0, w2: 0, w3: 0 };
    let mut b: Vec<u8> = Vec::new();
    push_u64(&mut b, 0x3);
    push_addr(&mut b, &addr(83));
    push_u64(&mut b, 0);
    push_addr(&mut b, &zero);
    push_addr(&mut b, &zero);
    push_addr(&mut b, &zero);
    push_u64(&mut b, 0);
    push_u64(&mut b, 0);
    push_addr(&mut b, &zero);
    push_u64(&mut b, 0);
    push_u64(&mut b, 0);
    push_u64(&mut b, 0);
    push_addr(&mut b, &zero);
    push_addr(&mut b, event_q);
    push_addr(&mut b, &zero);
    push_addr(&mut b, &zero);
    push_u64(&mut b, 1);
    push_u64(&mut b, 1);
    push_u64(&mut b, 0);
    push_u64(&mut b, 0);
    b
}

fn open_orders_record(owner: &Address, market: &Address, pc_total: u64, coin_total: u64) -> Vec<u8> {
    let mut b: Vec<u8> = Vec::new();
    push_u64(&mut b, 0x5);
    push_addr(&mut b, market);
    push_addr(&mut b, owner);
    push_u64(&mut b, 0);
    push_u64(&mut b, coin_total);
    push_u64(&mut b, 0);
    push_u64(&mut b, pc_total);
    b.extend_from_slice(&0u128.to_le_bytes());
    b.extend_from_slice(&0u128.to_le_bytes());
    b.extend_from_slice(&[0u8; 2048]);
    b.extend_from_slice(&[0u8; 1024]);
    push_u64(&mut b, 0);
    b
}

fn event_bytes(flags: u8, released: u64, paid: u64, owner: &Address) -> Vec<u8> {
    let mut b: Vec<u8> = Vec::new();
    b.push(flags);
    b.push(0);
    b.push(0);
    b.extend_from_slice(&[0u8; 5]);
    push_u64(&mut b, released);
    push_u64(&mut b, paid);
    push_u64(&mut b, 0);
    b.extend_from_slice(&0u128.to_le_bytes());
    push_addr(&mut b, owner);
    push_u64(&mut b, 0);
    b
}

fn event_queue_data(events: &[Vec<u8>]) -> Vec<u8> {
    let mut body: Vec<u8> = Vec::new();
    push_u64(&mut body, 0x11);
    push_u64(&mut body, 0); // head
    push_u64(&mut body, events.len() as u64);
    push_u64(&mut body, 1);
    for e in events {
        body.extend_from_slice(e);
    }
    padded(body)
}

/// The 16-account window of the order-book venue: coin side = the target
/// mint, quote ("pc") side = the quote mint.
fn raydium_window(quote_mint: &Address, token_mint: &Address, status: u64, pool_open_time: u64, pc_vault_amount: u64, coin_vault_amount: u64, oo_pc_total: u64, oo_coin_total: u64, events: &[Vec<u8>]) -> Vec<AccountData> {
    let spl = spl_token_program_id();
    let market_program = addr(84);
    vec![
        acct(raydium_v4_program_id(), addr(0), Vec::new()),
        acct(sysvar_clock_id(), addr(0), clock_data(100, 1_000)),
        acct(spl, addr(0), Vec::new()),
        acct(addr(60), raydium_v4_program_id(), amm_record(status, token_mint, quote_mint, pool_open_time, 0)),
        acct(addr(85), addr(0), Vec::new()), // authority
        acct(addr(82), market_program, padded(open_orders_record(&addr(85), &addr(83), oo_pc_total, oo_coin_total))),
        acct(addr(80), spl, token_account_data(token_mint, &addr(85), coin_vault_amount)),
        acct(addr(81), spl, token_account_data(quote_mint, &addr(85), pc_vault_amount)),
        acct(market_program, addr(0), Vec::new()),
        acct(addr(83), market_program, padded(market_record(&addr(70)))),
        acct(addr(71), addr(0), Vec::new()), // bids
        acct(addr(72), addr(0), Vec::new()), // asks
        acct(addr(70), addr(0), event_queue_data(events)),
        acct(addr(73), addr(0), Vec::new()),
        acct(addr(74), addr(0), Vec::new()),
        acct(addr(75), addr(0), Vec::new()),
    ]
}

fn user_accounts(quote_mint: &Address, token_mint: &Address, balance: u64) -> (AccountData, AccountData) {
    let spl = spl_token_program_id();
    let source = acct(addr(110), spl, token_account_data(quote_mint, &addr(111), balance));
    let destination = acct(addr(112), spl, token_account_data(token_mint, &addr(111), 0));
    (source, destination)
}

#[test]
fn raydium_swap_only_quote() {
    let quote_mint = addr(1);
    let token_mint = addr(2);
    // Status 6 grants swaps without order-book replay.
    let accounts = raydium_window(&quote_mint, &token_mint, 6, 0, 500_000, 1_000_000, 0, 0, &[]);
    let (source, destination) = user_accounts(&quote_mint, &token_mint, 100_000);
    let r = RaydiumV4.do_swap_calculation(
        &accounts,
        &base(quote_mint, token_mint, 10_000),
        &source,
        &destination,
        0,
    );
    let q = r.unwrap().expect("eligible");
    // fee = ceil(10,000 * 25 / 10,000) = 25; out = floor(1,000,000 * 9,975
    // / 509,975) = 19,559.
    assert_eq!(q.amount_in_fee, 25);
    assert_eq!(q.amount_out, 19_559);
    assert_eq!(q.pool, addr(60));
}

#[test]
fn raydium_initialized_status_replays_the_book() {
    let quote_mint = addr(1);
    let token_mint = addr(2);
    // Status 1 grants the order book: vault balances plus pending totals
    // plus one maker bid fill (pays 100 quote, receives 40 base) for the
    // pool's open-orders identity reconstruct the same 500,000 / 1,000,000
    // reserves as the plain test above.
    let fill = event_bytes(0x1 | 0x4 | 0x8, 40, 100, &addr(82));
    let accounts = raydium_window(
        &quote_mint,
        &token_mint,
        1,
        0,
        400_000,
        999_960,
        100_100,
        0,
        &[fill],
    );
    let (source, destination) = user_accounts(&quote_mint, &token_mint, 100_000);
    let r = RaydiumV4.do_swap_calculation(
        &accounts,
        &base(quote_mint, token_mint, 10_000),
        &source,
        &destination,
        0,
    );
    let q = r.unwrap().expect("eligible");
    assert_eq!(q.amount_out, 19_559);
}

#[test]
fn raydium_waiting_trade_gate() {
    let quote_mint = addr(1);
    let token_mint = addr(2);
    // Status 7 before the configured open time: ineligible.
    let accounts = raydium_window(&quote_mint, &token_mint, 7, 5_000, 500_000, 1_000_000, 0, 0, &[]);
    let (source, destination) = user_accounts(&quote_mint, &token_mint, 100_000);
    let b = base(quote_mint, token_mint, 10_000);
    let r = RaydiumV4.do_swap_calculation(&accounts, &b, &source, &destination, 0);
    assert_eq!(r.unwrap(), None);
    // Once the open time has passed it auto-transitions to swap-only.
    let accounts2 = raydium_window(&quote_mint, &token_mint, 7, 100, 500_000, 1_000_000, 0, 0, &[]);
    let r2 = RaydiumV4.do_swap_calculation(&accounts2, &b, &source, &destination, 0);
    assert_eq!(r2.unwrap().unwrap().amount_out, 19_559);
    // A disabled pool grants nothing and never reads the clock's fields.
    let accounts3 = raydium_window(&quote_mint, &token_mint, 2, 0, 500_000, 1_000_000, 0, 0, &[]);
    let r3 = RaydiumV4.do_swap_calculation(&accounts3, &b, &source, &destination, 0);
    assert_eq!(r3.unwrap(), None);
}

#[test]
fn raydium_never_quotes_reserve_or_more() {
    let quote_mint = addr(1);
    let token_mint = addr(2);
    // With no liquidity left on the input side, the constant product would
    // hand out the whole output reserve; the guard demands strictly less
    // and reports the venue ineligible instead.
    let accounts = raydium_window(&quote_mint, &token_mint, 6, 0, 0, 1_000_000, 0, 0, &[]);
    let (source, destination) = user_accounts(&quote_mint, &token_mint, 100_000);
    let b = base(quote_mint, token_mint, 10_000);
    let r = RaydiumV4.do_swap_calculation(&accounts, &b, &source, &destination, 0);
    assert_eq!(r.unwrap(), None);
    // A nearly drained output side still quotes (zero), staying strictly
    // below the reserve.
    let accounts2 = raydium_window(&quote_mint, &token_mint, 6, 0, 500_000, 2, 0, 0, &[]);
    let r2 = RaydiumV4.do_swap_calculation(&accounts2, &b, &source, &destination, 0);
    assert_eq!(r2.unwrap().unwrap().amount_out, 0);
}

#[test]
fn raydium_rejects_foreign_user_tokens() {
    let quote_mint = addr(1);
    let token_mint = addr(2);
    let accounts = raydium_window(&quote_mint, &token_mint, 6, 0, 500_000, 1_000_000, 0, 0, &[]);
    // The user's source account carries a currency matching neither vault.
    let (_, destination) = user_accounts(&quote_mint, &token_mint, 100_000);
    let spl = spl_token_program_id();
    let foreign_source = acct(addr(110), spl, token_account_data(&addr(9), &addr(111), 100_000));
    let r = RaydiumV4.do_swap_calculation(
        &accounts,
        &base(quote_mint, token_mint, 10_000),
        &foreign_source,
        &destination,
        0,
    );
    assert_eq!(r.unwrap_err(), Error::InvalidUserToken);
}


#[test]
fn raydium_uninitialized_pool_is_a_hard_error() {
    let quote_mint = addr(1);
    let token_mint = addr(2);
    // An owner-correct, full-length pool whose status word is 0 is a caller
    // bug: the quote fails hard instead of skipping to the next venue.
    let accounts = raydium_window(&quote_mint, &token_mint, 0, 0, 500_000, 1_000_000, 0, 0, &[]);
    let (source, destination) = user_accounts(&quote_mint, &token_mint, 100_000);
    let r = RaydiumV4.do_swap_calculation(
        &accounts,
        &base(quote_mint, token_mint, 10_000),
        &source,
        &destination,
        0,
    );
    assert_eq!(r.unwrap_err(), Error::InvalidStatus);
}

#[test]
fn cpi_account_tables() {
    // The account tables are the hard layout contract of each venue's
    // nested invocation: fixed lengths, the signer authority in its exact
    // slot, and the caller's source/destination accounts where the venue
    // expects them.
    let m = MeteoraV1::swap_account_order();
    assert_eq!(m.len(), 15);
    assert_eq!(m[0].account, CpiAccount::Window(2));
    assert!(m[0].is_writable && !m[0].is_signer);
    assert_eq!(m[1].account, CpiAccount::QuoteTokenAccount);
    assert_eq!(m[2].account, CpiAccount::DestinationTokenAccount);
    assert_eq!(m[12].account, CpiAccount::SelfAuthority);
    assert!(m[12].is_signer && !m[12].is_writable);
    assert_eq!(m[13].account, CpiAccount::Window(12));
    assert_eq!(m[14].account, CpiAccount::Window(13));
    assert!(!m[14].is_writable);
    let r = RaydiumV4::swap_account_order();
    assert_eq!(r.len(), 17);
    assert_eq!(r[0].account, CpiAccount::Window(2));
    assert!(!r[0].is_writable);
    assert_eq!(r[1].account, CpiAccount::Window(3));
    assert!(r[1].is_writable);
    assert_eq!(r[14].account, CpiAccount::QuoteTokenAccount);
    assert_eq!(r[15].account, CpiAccount::DestinationTokenAccount);
    assert_eq!(r[16].account, CpiAccount::SelfAuthority);
    assert!(r[16].is_signer && !r[16].is_writable);
}

#[test]
fn instruction_payloads() {
    let m = MeteoraV1::create_swap_instruction_data(10_000, 19_000);
    assert_eq!(m.len(), 24);
    assert_eq!(&m[..8], &[248, 198, 158, 145, 225, 117, 135, 200]);
    assert_eq!(&m[8..16], &10_000u64.to_le_bytes());
    assert_eq!(&m[16..24], &19_000u64.to_le_bytes());
    let r = RaydiumV4::create_swap_instruction_data(10_000, 19_000);
    assert_eq!(r.len(), 17);
    assert_eq!(r[0], 9);
    assert_eq!(&r[1..9], &10_000u64.to_le_bytes());
    assert_eq!(&r[9..17], &19_000u64.to_le_bytes());
}
