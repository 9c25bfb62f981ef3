//! Decoders against hand-assembled account payloads, and the trusted
//! unpack/derive wrappers against the host libraries they rely on.
use intermediary::account::{Address, AccountData, decode_clock, read_u64_le, read_u128_le,
    read_address};
use intermediary::error::Error;
use intermediary::pda::PdaResolver;
use intermediary::protocols::meteora_v1::{Pool, Vault, CurveType, PoolType};
use intermediary::protocols::raydium_v4::{AmmInfo, Fees, MarketState, Market, OpenOrders,
    EventView, Side, FeeTier, load_event_queue, calc_exact_vault_in_serum,
    calc_total_without_take_pnl_no_orderbook, unpack_token_account};
use intermediary::spl::{fresh_token_account_bytes, unpack_token_account_checked,
    unpack_token_account_unchecked, unpack_mint_supply_unchecked};
use intermediary::state::{Dex, Intermediary};
use intermediary::{program_id, native_mint_id, spl_token_program_id};
use spl_token::solana_program::program_pack::Pack;

fn addr(n: u8) -> Address {
    Address { w0: n as u64, w1: 0x1111, w2: 0x2222, w3: n as u64 + 7 }
}

fn push_addr(v: &mut Vec<u8>, a: &Address) {
    v.extend_from_slice(&a.to_bytes());
}

fn push_u64(v: &mut Vec<u8>, x: u64) {
    v.extend_from_slice(&x.to_le_bytes());
}

fn token_account_data(mint: &Address, owner: &Address, amount: u64) -> Vec<u8> {
    let mut d = fresh_token_account_bytes(mint, owner);
    d[64..72].copy_from_slice(&amount.to_le_bytes());
    d
}

fn mint_data(supply: u64) -> Vec<u8> {
    let mut d = vec![0u8; 82];
    d[36..44].copy_from_slice(&supply.to_le_bytes());
    d[45] = 1;
    d
}

#[test]
fn byte_readers_read_little_endian() {
    let mut v: Vec<u8> = vec![0xAA];
    push_u64(&mut v, 0x0102030405060708);
    assert_eq!(read_u64_le(&v, 1), 0x0102030405060708);
    let mut w: Vec<u8> = Vec::new();
    w.extend_from_slice(&0x1122334455667788_99AABBCCDDEEFF00u128.to_le_bytes());
    assert_eq!(read_u128_le(&w, 0), 0x1122334455667788_99AABBCCDDEEFF00);
    let a = addr(5);
    let bytes = a.to_bytes();
    assert_eq!(read_address(&bytes, 0), a);
    assert_eq!(Address::from_bytes(&bytes), a);
}

#[test]
fn clock_decoding() {
    let mut d: Vec<u8> = Vec::new();
    push_u64(&mut d, 77);
    push_u64(&mut d, 0);
    push_u64(&mut d, 0);
    push_u64(&mut d, 0);
    push_u64(&mut d, 1_700_000_000);
    let c = decode_clock(&d).unwrap();
    assert_eq!(c.slot, 77);
    assert_eq!(c.unix_timestamp, 1_700_000_000);
    assert!(decode_clock(&d[..39]).is_none());
}

pub fn pool_record(token_a_mint: &Address, token_b_mint: &Address, enabled: bool, activation_type: u8, activation_point: u64, trade_fee: (u64, u64), protocol_fee: (u64, u64), curve_tag: u8) -> Vec<u8> {
    let zero = Address { w0: 0, w1: 0, w2: 0, w3: 0 };
    let mut d: Vec<u8> = Vec::new();
    push_addr(&mut d, &addr(90)); // lp_mint
    push_addr(&mut d, token_a_mint);
    push_addr(&mut d, token_b_mint);
    push_addr(&mut d, &addr(91)); // a_vault
    push_addr(&mut d, &addr(92)); // b_vault
    push_addr(&mut d, &addr(93)); // a_vault_lp
    push_addr(&mut d, &addr(94)); // b_vault_lp
    d.push(250); // a_vault_lp_bump
    d.push(if enabled { 1 } else { 0 });
    push_addr(&mut d, &addr(95)); // protocol_token_a_fee
    push_addr(&mut d, &addr(96)); // protocol_token_b_fee
    push_u64(&mut d, 11); // fee_last_updated_at
    d.extend_from_slice(&[0u8; 24]);
    push_u64(&mut d, trade_fee.0);
    push_u64(&mut d, trade_fee.1);
    push_u64(&mut d, protocol_fee.0);
    push_u64(&mut d, protocol_fee.1);
    d.push(1); // pool_type: permissionless
    push_addr(&mut d, &zero); // stake: no staking extension
    push_u64(&mut d, 0); // total_locked_lp
    push_u64(&mut d, activation_point);
    push_addr(&mut d, &zero); // whitelisted_vault
    push_addr(&mut d, &zero); // pool_creator
    d.push(activation_type);
    push_u64(&mut d, 0); // partner fee_numerator
    push_addr(&mut d, &zero); // partner_authority
    push_u64(&mut d, 0);
    push_u64(&mut d, 0);
    d.extend_from_slice(&[0u8; 342]); // padding
    d.push(curve_tag);
    if curve_tag == 1 {
        d.extend_from_slice(&[0u8; 50]);
    }
    d
}

#[test]
fn pool_decoding() {
    let a = addr(1);
    let b = addr(2);
    let rec = pool_record(&a, &b, true, 0, 42, (25, 10_000), (0, 1), 0);
    let p = Pool::decode(&rec).unwrap();
    assert_eq!(p.token_a_mint, a);
    assert_eq!(p.token_b_mint, b);
    assert!(p.enabled);
    assert_eq!(p.pool_type, PoolType::Permissionless);
    assert_eq!(p.fees.trade_fee_numerator, 25);
    assert_eq!(p.fees.trade_fee_denominator, 10_000);
    assert_eq!(p.bootstrapping.activation_point, 42);
    assert_eq!(p.curve_type, CurveType::ConstantProduct);
    // A stable-curve record still decodes; the quote layer skips it.
    let stable = pool_record(&a, &b, true, 0, 42, (25, 10_000), (0, 1), 1);
    let p2 = Pool::decode(&stable).unwrap();
    assert!(matches!(p2.curve_type, CurveType::Stable { .. }));
    // Truncated and tag-corrupted records are rejected.
    assert!(Pool::decode(&rec[..800]).is_none());
    let mut bad = rec.clone();
    bad[225] = 9;
    assert!(Pool::decode(&bad).is_none());
}

pub fn vault_record(total_amount: u64, lp_mint: &Address) -> Vec<u8> {
    let zero = Address { w0: 0, w1: 0, w2: 0, w3: 0 };
    let mut d: Vec<u8> = Vec::new();
    d.push(1); // enabled
    d.push(0);
    d.push(0); // bumps
    push_u64(&mut d, total_amount);
    push_addr(&mut d, &addr(97)); // token_vault
    push_addr(&mut d, &zero); // fee_vault
    push_addr(&mut d, &zero); // token_mint
    push_addr(&mut d, lp_mint);
    for _ in 0..30 {
        push_addr(&mut d, &zero); // strategies
    }
    push_addr(&mut d, &zero); // base
    push_addr(&mut d, &zero); // admin
    push_addr(&mut d, &zero); // operator
    push_u64(&mut d, 0); // last_updated_locked_profit
    push_u64(&mut d, 0); // last_report
    push_u64(&mut d, 0); // locked_profit_degradation
    d
}

#[test]
fn vault_decoding() {
    let rec = vault_record(1_000_000, &addr(3));
    let v = Vault::decode(&rec).unwrap();
    assert_eq!(v.total_amount, 1_000_000);
    assert_eq!(v.lp_mint, addr(3));
    assert_eq!(v.enabled, 1);
    assert_eq!(v.locked_profit_tracker.last_report, 0);
    assert!(Vault::decode(&rec[..1218]).is_none());
}

#[test]
fn intermediary_decoding() {
    let mut d: Vec<u8> = Vec::new();
    push_addr(&mut d, &addr(10)); // manager
    push_addr(&mut d, &addr(11)); // trader
    push_addr(&mut d, &addr(12)); // w_sol_token_account
    push_addr(&mut d, &addr(13)); // temporary
    push_addr(&mut d, &addr(14)); // lookup table
    push_addr(&mut d, &addr(15)); // self_authority
    d.extend_from_slice(&[251, 252, 253, 1]);
    let im = Intermediary::decode(&d).unwrap();
    assert_eq!(im.manager, addr(10));
    assert_eq!(im.trader, addr(11));
    assert_eq!(im.self_authority, addr(15));
    assert_eq!(im.w_sol_token_account_pubkey_bump_seed, 251);
    assert_eq!(im.self_authority_pubkey_bump_seed, 253);
    assert!(im.is_initialized());
    let im2 = Intermediary::new(
        addr(10),
        addr(11),
        addr(12),
        addr(13),
        addr(14),
        addr(15),
        251,
        252,
        253,
    );
    assert_eq!(im2, im);
    assert!(Intermediary::decode(&d[..195]).is_none());
}

#[test]
fn fees_unpacking() {
    let mut d: Vec<u8> = Vec::new();
    for x in [5u64, 10_000, 25, 10_000, 12, 100, 25, 10_000] {
        push_u64(&mut d, x);
    }
    let f = Fees::unpack_from_slice(&d).unwrap();
    assert_eq!(f.min_separate_numerator, 5);
    assert_eq!(f.swap_fee_denominator, 10_000);
    assert_eq!(Fees::unpack_from_slice(&d[..63]), Err(Error::InvalidAccountData));
}

pub fn amm_record(status: u64, coin_mint: &Address, pc_mint: &Address, swap_fee: (u64, u64), pool_open_time: u64, orderbook_to_init_time: u64) -> Vec<u8> {
    let zero = Address { w0: 0, w1: 0, w2: 0, w3: 0 };
    let mut d: Vec<u8> = Vec::new();
    push_u64(&mut d, status);
    for _ in 0..15 {
        push_u64(&mut d, 0); // nonce .. sys_decimal_value
    }
    for x in [5u64, 10_000, 25, 10_000, 12, 100, swap_fee.0, swap_fee.1] {
        push_u64(&mut d, x); // fees
    }
    // state data: need_take_pnl_coin, need_take_pnl_pc, pnl totals, open time
    push_u64(&mut d, 0);
    push_u64(&mut d, 0);
    push_u64(&mut d, 0);
    push_u64(&mut d, 0);
    push_u64(&mut d, pool_open_time);
    push_u64(&mut d, 0);
    push_u64(&mut d, 0);
    push_u64(&mut d, orderbook_to_init_time);
    d.extend_from_slice(&0u128.to_le_bytes());
    d.extend_from_slice(&0u128.to_le_bytes());
    push_u64(&mut d, 0);
    d.extend_from_slice(&0u128.to_le_bytes());
    d.extend_from_slice(&0u128.to_le_bytes());
    push_u64(&mut d, 0);
    push_addr(&mut d, &addr(80)); // coin_vault
    push_addr(&mut d, &addr(81)); // pc_vault
    push_addr(&mut d, coin_mint);
    push_addr(&mut d, pc_mint);
    push_addr(&mut d, &zero); // lp_mint
    push_addr(&mut d, &addr(82)); // open_orders
    push_addr(&mut d, &addr(83)); // market
    push_addr(&mut d, &addr(84)); // market_program
    push_addr(&mut d, &zero); // target_orders
    for _ in 0..8 {
        push_u64(&mut d, 0); // padding
    }
    push_addr(&mut d, &zero); // amm_owner
    push_u64(&mut d, 0); // lp_amount
    push_u64(&mut d, 0); // client_order_id
    push_u64(&mut d, 0); // recent_epoch
    push_u64(&mut d, 0); // padding
    d
}

#[test]
fn amm_info_loading() {
    let program = addr(66);
    let rec = amm_record(6, &addr(1), &addr(2), (25, 10_000), 0, 0);
    assert_eq!(rec.len(), 752);
    let account = AccountData {
        key: addr(60),
        owner: program,
        is_writable: true,
        is_signer: false,
        lamports: 0,
        data: rec.clone(),
    };
    let amm = AmmInfo::load_checked(&account, &program).unwrap();
    assert_eq!(amm.status, 6);
    assert_eq!(amm.coin_vault_mint, addr(1));
    assert_eq!(amm.pc_vault_mint, addr(2));
    assert_eq!(amm.fees.swap_fee_numerator, 25);
    // Wrong owner, wrong length, uninitialized status.
    let wrong_owner = AccountData { owner: addr(9), ..clone_account(&account) };
    assert_eq!(
        AmmInfo::load_checked(&wrong_owner, &program).unwrap_err(),
        Error::InvalidAmmAccountOwner
    );
    let short = AccountData { data: rec[..751].to_vec(), ..clone_account(&account) };
    assert_eq!(AmmInfo::load_checked(&short, &program).unwrap_err(), Error::ExpectedAccount);
    let uninit = AccountData { data: amm_record(0, &addr(1), &addr(2), (25, 10_000), 0, 0), ..clone_account(&account) };
    assert_eq!(AmmInfo::load_checked(&uninit, &program).unwrap_err(), Error::InvalidStatus);
}

fn clone_account(a: &AccountData) -> AccountData {
    AccountData {
        key: a.key,
        owner: a.owner,
        is_writable: a.is_writable,
        is_signer: a.is_signer,
        lamports: a.lamports,
        data: a.data.clone(),
    }
}

fn padded(body: Vec<u8>) -> Vec<u8> {
    let mut d: Vec<u8> = Vec::new();
    d.extend_from_slice(b"serum");
    d.extend_from_slice(&body);
    d.extend_from_slice(b"padding");
    d
}

pub fn market_record(event_q: &Address) -> Vec<u8> {
    let zero = Address { w0: 0, w1: 0, w2: 0, w3: 0 };
    let mut b: Vec<u8> = Vec::new();
    push_u64(&mut b, 0x3); // flags: initialized | market
    push_addr(&mut b, &addr(83)); // own_address
    push_u64(&mut b, 0); // vault_signer_nonce
    push_addr(&mut b, &zero); // coin_mint
    push_addr(&mut b, &zero); // pc_mint
    push_addr(&mut b, &zero); // coin_vault
    push_u64(&mut b, 0);
    push_u64(&mut b, 0);
    push_addr(&mut b, &zero); // pc_vault
    push_u64(&mut b, 0);
    push_u64(&mut b, 0);
    push_u64(&mut b, 0);
    push_addr(&mut b, &zero); // req_q
    push_addr(&mut b, event_q);
    push_addr(&mut b, &zero); // bids
    push_addr(&mut b, &zero); // asks
    push_u64(&mut b, 1);
    push_u64(&mut b, 1);
    push_u64(&mut b, 0);
    push_u64(&mut b, 0);
    b
}

#[test]
fn market_loading() {
    let program = addr(84);
    let body = market_record(&addr(70));
    assert_eq!(body.len(), 376);
    let account = AccountData {
        key: addr(83),
        owner: program,
        is_writable: true,
        is_signer: false,
        lamports: 0,
        data: padded(body.clone()),
    };
    let m = Market::load_checked(&account, &program, false).unwrap();
    assert_eq!(m.event_q, addr(70));
    assert_eq!(m.account_flags, 0x3);
    // Wrong markers or a disabled flag without permission are refused.
    let mut no_marker = clone_account(&account);
    no_marker.data[0] = b'x';
    assert_eq!(Market::load_checked(&no_marker, &program, false).unwrap_err(), Error::InvalidLogic);
    let mut disabled_body = market_record(&addr(70));
    disabled_body[0] = 0x83;
    let disabled = AccountData { data: padded(disabled_body), ..clone_account(&account) };
    assert_eq!(Market::load_checked(&disabled, &program, false).unwrap_err(), Error::InvalidLogic);
    assert!(Market::load_checked(&disabled, &program, true).is_ok());
    assert!(MarketState::load_checked(&account, &program, false).is_ok());
}

fn event_bytes(flags: u8, fee_tier: u8, released: u64, paid: u64, owner: &Address, client_order_id: u64) -> Vec<u8> {
    let mut b: Vec<u8> = Vec::new();
    b.push(flags);
    b.push(0); // owner_slot
    b.push(fee_tier);
    b.extend_from_slice(&[0u8; 5]);
    push_u64(&mut b, released);
    push_u64(&mut b, paid);
    push_u64(&mut b, 0); // fee or rebate
    b.extend_from_slice(&0u128.to_le_bytes()); // order id
    push_addr(&mut b, owner);
    push_u64(&mut b, client_order_id);
    b
}

pub fn open_orders_record(owner: &Address, market: &Address, pc_total: u64, coin_total: u64) -> Vec<u8> {
    let mut b: Vec<u8> = Vec::new();
    push_u64(&mut b, 0x5); // initialized | open-orders
    push_addr(&mut b, market);
    push_addr(&mut b, owner);
    push_u64(&mut b, 0); // native_coin_free
    push_u64(&mut b, coin_total);
    push_u64(&mut b, 0); // native_pc_free
    push_u64(&mut b, pc_total);
    b.extend_from_slice(&0u128.to_le_bytes());
    b.extend_from_slice(&0u128.to_le_bytes());
    b.extend_from_slice(&[0u8; 2048]);
    b.extend_from_slice(&[0u8; 1024]);
    push_u64(&mut b, 0);
    b
}

#[test]
fn event_queue_replay() {
    // A ring of 4 slots, head 3, two live events that wrap around the end.
    let market_body = market_record(&addr(70));
    let market = MarketState::load_checked(
        &AccountData {
            key: addr(83),
            owner: addr(84),
            is_writable: true,
            is_signer: false,
            lamports: 0,
            data: padded(market_body),
        },
        &addr(84),
        false,
    )
    .unwrap();
    let ours = addr(82);
    let other = addr(50);
    // Slot 3 (oldest): maker bid fill for our identity: pays 100 quote,
    // receives 40 base.  Slot 0: fill for another identity, skipped.
    let e_bid = event_bytes(0x1 | 0x4 | 0x8, 0, 40, 100, &ours, 7);
    let e_other = event_bytes(0x1 | 0x4 | 0x8, 0, 9, 9, &other, 0);
    let empty = event_bytes(0x2, 0, 0, 0, &other, 0);
    let mut body: Vec<u8> = Vec::new();
    push_u64(&mut body, 0x11); // initialized | event-queue
    push_u64(&mut body, 3); // head
    push_u64(&mut body, 2); // count
    push_u64(&mut body, 9); // seq
    body.extend_from_slice(&e_other);
    body.extend_from_slice(&empty);
    body.extend_from_slice(&empty);
    body.extend_from_slice(&e_bid);
    let queue_account = AccountData {
        key: addr(70),
        owner: addr(84),
        is_writable: true,
        is_signer: false,
        lamports: 0,
        data: padded(body),
    };
    let q = load_event_queue(&market, &queue_account).unwrap();
    assert_eq!(q.header.count, 2);
    assert_eq!(q.events.len(), 2);
    // Oldest first: the wrapped slot 3 comes before slot 0.
    assert_eq!(q.events[0].native_qty_paid, 100);
    let view = q.events[0].as_view().unwrap();
    match view {
        EventView::Fill { side, maker, native_qty_paid, native_qty_received, fee_tier, client_order_id, .. } => {
            assert_eq!(side, Side::Bid);
            assert!(maker);
            assert_eq!(native_qty_paid, 100);
            assert_eq!(native_qty_received, 40);
            assert_eq!(fee_tier, FeeTier::Base);
            assert_eq!(client_order_id, Some(7));
        },
        EventView::Out { .. } => panic!("expected a fill"),
    }
    // Replay: starting totals pc 1,000 / coin 500, our bid fill moves
    // 100 quote out and 40 base in; the foreign fill is skipped.
    let oo_record = open_orders_record(&ours, &addr(83), 1_000, 500);
    let oo_account = AccountData {
        key: ours,
        owner: addr(84),
        is_writable: true,
        is_signer: false,
        lamports: 0,
        data: padded(oo_record),
    };
    let oo = OpenOrders::load_checked(&oo_account, Some(addr(83)), Some(ours), &addr(84)).unwrap();
    assert_eq!(oo.native_pc_total, 1_000);
    let (pc, coin) = calc_exact_vault_in_serum(&oo, &q.events, &ours).unwrap();
    assert_eq!(pc, 900);
    assert_eq!(coin, 540);
    // An underflowing replay is an arithmetic error, not a wrap.
    let oo_small = OpenOrders { native_pc_total: 10, ..oo };
    assert_eq!(
        calc_exact_vault_in_serum(&oo_small, &q.events, &ours).unwrap_err(),
        Error::CheckedSubOverflow
    );
    // The wrong queue account is refused by address.
    let misnamed = AccountData { key: addr(71), ..clone_account(&queue_account) };
    assert_eq!(load_event_queue(&market, &misnamed).unwrap_err(), Error::WrongEventQueueAccount);
}

#[test]
fn no_orderbook_totals_subtract_earmarked_profit() {
    let program = addr(66);
    let mut rec = amm_record(6, &addr(1), &addr(2), (25, 10_000), 0, 0);
    // need_take_pnl_coin = 30, need_take_pnl_pc = 20
    rec[192..200].copy_from_slice(&30u64.to_le_bytes());
    rec[200..208].copy_from_slice(&20u64.to_le_bytes());
    let account = AccountData {
        key: addr(60),
        owner: program,
        is_writable: true,
        is_signer: false,
        lamports: 0,
        data: rec,
    };
    let amm = AmmInfo::load_checked(&account, &program).unwrap();
    assert_eq!(calc_total_without_take_pnl_no_orderbook(520, 1_030, &amm), Ok((500, 1_000)));
    assert_eq!(
        calc_total_without_take_pnl_no_orderbook(19, 1_030, &amm),
        Err(Error::ArithmeticOverflow)
    );
}

#[test]
fn spl_wrappers_agree_with_token_program() {
    let mint = addr(21);
    let owner = addr(22);
    let built = fresh_token_account_bytes(&mint, &owner);
    // The token program itself parses what the engine builds.
    let parsed = spl_token::state::Account::unpack(&built).expect("token program parses it");
    assert_eq!(parsed.amount, 0);
    assert_eq!(parsed.mint.to_bytes().to_vec(), mint.to_bytes());
    assert_eq!(parsed.owner.to_bytes().to_vec(), owner.to_bytes());
    // The wrappers hand back the stored fields, not their input.
    let data = token_account_data(&mint, &owner, 123_456);
    let v = unpack_token_account_checked(&data).unwrap();
    assert_eq!(v.amount, 123_456);
    assert_eq!(v.mint, mint);
    assert_eq!(unpack_token_account_unchecked(&data).unwrap().amount, 123_456);
    // An uninitialized record passes unchecked but not checked unpacking.
    let mut uninit = data.clone();
    uninit[108] = 0;
    assert!(unpack_token_account_checked(&uninit).is_none());
    assert!(unpack_token_account_unchecked(&uninit).is_some());
    // A corrupted option tag is refused by both.
    let mut bad = data.clone();
    bad[73] = 9;
    assert!(unpack_token_account_unchecked(&bad).is_none());
    // Mints.
    let md = mint_data(777);
    assert_eq!(unpack_mint_supply_unchecked(&md), Some(777));
    assert!(unpack_mint_supply_unchecked(&md[..81]).is_none());
    // The raydium-style owner-checked unpack.
    let acc = AccountData {
        key: addr(30),
        owner: spl_token_program_id(),
        is_writable: true,
        is_signer: false,
        lamports: 0,
        data,
    };
    assert_eq!(unpack_token_account(&acc, &spl_token_program_id()).unwrap().amount, 123_456);
    let foreign = AccountData { owner: addr(31), ..clone_account(&acc) };
    assert_eq!(
        unpack_token_account(&foreign, &spl_token_program_id()).unwrap_err(),
        Error::InvalidSplTokenProgram
    );
    let empty = AccountData { data: Vec::new(), ..clone_account(&acc) };
    assert_eq!(
        unpack_token_account(&empty, &spl_token_program_id()).unwrap_err(),
        Error::ExpectedAccount
    );
}

#[test]
fn pda_wrappers_agree_with_host_derivation() {
    let custody = addr(40);
    // find returns the highest workable bump, and create re-derives it.
    let (authority, bump) = PdaResolver::self_authority_find(&custody).expect("a bump exists");
    assert_eq!(PdaResolver::self_authority_create(&custody, bump).unwrap(), authority);
    // The host library's own search agrees.
    let pid = solana_program::pubkey::Pubkey::new_from_array(
        program_id().to_bytes().try_into().unwrap(),
    );
    let custody_pk = solana_program::pubkey::Pubkey::new_from_array(
        custody.to_bytes().try_into().unwrap(),
    );
    let (expected, expected_bump) = solana_program::pubkey::Pubkey::find_program_address(
        &[pid.as_ref(), custody_pk.as_ref(), b"selfauthority"],
        &pid,
    );
    assert_eq!(bump, expected_bump);
    assert_eq!(authority.to_bytes(), expected.to_bytes().to_vec());
    // The token-account role derives differently from the authority role.
    let (tok, tbump) = PdaResolver::token_account_find(&custody, &native_mint_id()).unwrap();
    assert_eq!(PdaResolver::token_account_create(&custody, &native_mint_id(), tbump).unwrap(), tok);
    assert_ne!(tok, authority);
    let (tmp, tmpbump) = PdaResolver::temporary_w_sol_token_account_find(&custody).unwrap();
    assert_eq!(
        PdaResolver::temporary_w_sol_token_account_create(&custody, tmpbump).unwrap(),
        tmp
    );
    assert_ne!(tmp, tok);
}

#[test]
fn dex_selector_names() {
    assert_eq!(Dex::MeteoraV1.to_str(), "MeteoraV1");
    assert_eq!(Dex::RaydiumV4.to_str(), "RaydiumV4");
    assert_eq!(Error::RepeatableDex.to_str(), "RepeatableDex");
    assert_eq!(Error::RepeatableDex.custom_code(), Some(12));
    assert_eq!(Error::ArithmeticOverflow.custom_code(), None);
}
