//! Token accounts and mints as the engine reads them.  The byte layouts are
//! the token program's; unpacking goes through that program's own library,
//! with each decoded field pinned here to the byte range it comes from.
use vstd::prelude::*;
use vstd::bytes::u64_to_le_bytes;
use crate::account::{Address, spec_word_at, spec_address_at, spec_address_bytes};

verus! {

/// Whether the four bytes at `off` are a valid stored option tag: a 0 or 1
/// byte followed by three zero bytes.
pub open spec fn spec_coption_tag_ok(s: Seq<u8>, off: int) -> bool {
    &&& (s[off] == 0 || s[off] == 1)
    &&& s[off + 1] == 0
    &&& s[off + 2] == 0
    &&& s[off + 3] == 0
}

/// Whether `s` is a well-formed token account record: 165 bytes, valid
/// option tags for the delegate, native and close-authority fields, and a
/// known state byte.
pub open spec fn spec_token_account_well_formed(s: Seq<u8>) -> bool {
    &&& s.len() == 165
    &&& spec_coption_tag_ok(s, 72)
    &&& s[108] <= 2
    &&& spec_coption_tag_ok(s, 109)
    &&& spec_coption_tag_ok(s, 129)
}

/// Whether the record's state byte says the account is initialized.
pub open spec fn spec_token_account_initialized(s: Seq<u8>) -> bool {
    s[108] != 0
}

/// The account's token balance.
pub open spec fn spec_token_account_amount(s: Seq<u8>) -> u64 {
    spec_word_at(s, 64)
}

/// The account's mint.
pub open spec fn spec_token_account_mint(s: Seq<u8>) -> Address {
    spec_address_at(s, 0)
}

/// The account's owner (the authority over its balance).
pub open spec fn spec_token_account_owner(s: Seq<u8>) -> Address {
    spec_address_at(s, 32)
}

/// Relies on spl_token's `Account::unpack_unchecked`: it accepts exactly a
/// 165-byte record with valid option tags and a state byte at most 2, and
/// returns the mint from bytes 0..32 and the little-endian balance from
/// bytes 64..72.
#[verifier::external_body]
fn spl_unpack_account_unchecked_raw(data: &[u8]) -> (r: Option<(u64, Vec<u8>)>)
    ensures
        r is Some <==> spec_token_account_well_formed(data@),
        r matches Some(p) ==> p.0 == spec_token_account_amount(data@) && p.1@ == data@.subrange(
            0,
            32,
        ),
{
    match <spl_token::state::Account as spl_token::solana_program::program_pack::Pack>::unpack_unchecked(
        data,
    ) {
        Ok(acc) => Some((acc.amount, acc.mint.to_bytes().to_vec())),
        Err(_) => None,
    }
}

/// Relies on spl_token's `Account::unpack`: `unpack_unchecked` plus the
/// initialized check on the state byte.
#[verifier::external_body]
fn spl_unpack_account_raw(data: &[u8]) -> (r: Option<(u64, Vec<u8>)>)
    ensures
        r is Some <==> (spec_token_account_well_formed(data@) && spec_token_account_initialized(
            data@,
        )),
        r matches Some(p) ==> p.0 == spec_token_account_amount(data@) && p.1@ == data@.subrange(
            0,
            32,
        ),
{
    match <spl_token::state::Account as spl_token::solana_program::program_pack::Pack>::unpack(data) {
        Ok(acc) => Some((acc.amount, acc.mint.to_bytes().to_vec())),
        Err(_) => None,
    }
}

/// Whether `s` is a well-formed mint record: 82 bytes, valid option tags for
/// the two authorities, and a boolean initialized byte.
pub open spec fn spec_mint_well_formed(s: Seq<u8>) -> bool {
    &&& s.len() == 82
    &&& spec_coption_tag_ok(s, 0)
    &&& (s[45] == 0 || s[45] == 1)
    &&& spec_coption_tag_ok(s, 46)
}

/// The mint's total supply.
pub open spec fn spec_mint_supply(s: Seq<u8>) -> u64 {
    spec_word_at(s, 36)
}

/// Relies on spl_token's `Mint::unpack_unchecked`: it accepts exactly an
/// 82-byte record with valid option tags and a boolean initialized byte, and
/// returns the little-endian supply from bytes 36..44.
#[verifier::external_body]
fn spl_unpack_mint_unchecked_raw(data: &[u8]) -> (r: Option<u64>)
    ensures
        r is Some <==> spec_mint_well_formed(data@),
        r matches Some(s) ==> s == spec_mint_supply(data@),
{
    match <spl_token::state::Mint as spl_token::solana_program::program_pack::Pack>::unpack_unchecked(data) {
        Ok(m) => Some(m.supply),
        Err(_) => None,
    }
}

/// A token account as the engine reads it: its balance and its mint.
#[derive(Clone, Copy, PartialEq, Eq, Structural, Debug)]
pub struct TokenAccountView {
    pub amount: u64,
    pub mint: Address,
}

/// Unpacks a token account without the initialized check.
pub fn unpack_token_account_unchecked(data: &[u8]) -> (r: Option<TokenAccountView>)
    ensures
        r is Some <==> spec_token_account_well_formed(data@),
        r matches Some(v) ==> v.amount == spec_token_account_amount(data@) && v.mint
            == spec_token_account_mint(data@),
{
    match spl_unpack_account_unchecked_raw(data) {
        Some((amount, mint_bytes)) => {
            let mint = Address::from_bytes(mint_bytes.as_slice());
            proof {
                lemma_mint_prefix_address(data@);
            }
            Some(TokenAccountView { amount, mint })
        },
        None => None,
    }
}

/// Unpacks a token account, requiring it initialized.
pub fn unpack_token_account_checked(data: &[u8]) -> (r: Option<TokenAccountView>)
    ensures
        r is Some <==> (spec_token_account_well_formed(data@) && spec_token_account_initialized(
            data@,
        )),
        r matches Some(v) ==> v.amount == spec_token_account_amount(data@) && v.mint
            == spec_token_account_mint(data@),
{
    match spl_unpack_account_raw(data) {
        Some((amount, mint_bytes)) => {
            let mint = Address::from_bytes(mint_bytes.as_slice());
            proof {
                lemma_mint_prefix_address(data@);
            }
            Some(TokenAccountView { amount, mint })
        },
        None => None,
    }
}

/// Unpacks a mint's supply without the initialized check.
pub fn unpack_mint_supply_unchecked(data: &[u8]) -> (r: Option<u64>)
    ensures
        r is Some <==> spec_mint_well_formed(data@),
        r matches Some(s) ==> s == spec_mint_supply(data@),
{
    spl_unpack_mint_unchecked_raw(data)
}

/// Reading an address out of a record's 32-byte prefix gives the same words
/// as reading it at offset 0 of the record.
proof fn lemma_mint_prefix_address(s: Seq<u8>)
    requires
        s.len() >= 32,
    ensures
        spec_address_at(s.subrange(0, 32), 0) == spec_address_at(s, 0),
{
    let p = s.subrange(0, 32);
    assert(p.subrange(0, 8) =~= s.subrange(0, 8));
    assert(p.subrange(8, 16) =~= s.subrange(8, 16));
    assert(p.subrange(16, 24) =~= s.subrange(16, 24));
    assert(p.subrange(24, 32) =~= s.subrange(24, 32));
}

/// The stored form of a freshly initialized, empty token account for `mint`
/// owned by `owner`: the mint, the owner, a zero balance, the initialized
/// state byte, and every optional field absent.
pub open spec fn spec_fresh_token_account_bytes(mint: Address, owner: Address) -> Seq<u8> {
    Seq::new(
        165,
        |k: int|
            if k < 32 {
                spec_address_bytes(mint)[k]
            } else if k < 64 {
                spec_address_bytes(owner)[k - 32]
            } else if k < 72 {
                vstd::bytes::spec_u64_to_le_bytes(0u64)[k - 64]
            } else if k == 108 {
                1u8
            } else {
                0u8
            },
    )
}

/// Builds [`spec_fresh_token_account_bytes`]: what the destination account
/// holds right after the engine creates it.
pub fn fresh_token_account_bytes(mint: &Address, owner: &Address) -> (r: Vec<u8>)
    ensures
        r@ == spec_fresh_token_account_bytes(*mint, *owner),
        r@.len() == 165,
        spec_token_account_well_formed(r@),
        spec_token_account_initialized(r@),
        spec_token_account_amount(r@) == 0,
        spec_token_account_mint(r@) == *mint,
        spec_token_account_owner(r@) == *owner,
{
    let mut r = mint.to_bytes();
    let mut owner_bytes = owner.to_bytes();
    r.append(&mut owner_bytes);
    let mut amount_bytes = u64_to_le_bytes(0u64);
    r.append(&mut amount_bytes);
    // delegate: none (36 zero bytes)
    let mut i: usize = 0;
    #[verifier::loop_isolation(false)]
    while i < 36
        invariant
            i <= 36,
            r@.len() == 72 + i,
            forall|k: int| 72 <= k < r@.len() ==> r@[k] == 0,
            r@.subrange(0, 72) == spec_address_bytes(*mint) + spec_address_bytes(*owner)
                + vstd::bytes::spec_u64_to_le_bytes(0u64),
        decreases 36 - i,
    {
        r.push(0u8);
        proof {
            assert(r@.subrange(0, 72) =~= r@.subrange(0, r@.len() - 1).subrange(0, 72));
        }
        i = i + 1;
    }
    // state: initialized
    r.push(1u8);
    // native tag, native value, delegated amount, close-authority field: all
    // zero (56 bytes)
    let mut j: usize = 0;
    #[verifier::loop_isolation(false)]
    while j < 56
        invariant
            j <= 56,
            r@.len() == 109 + j,
            forall|k: int| 72 <= k < 108 ==> r@[k] == 0,
            r@[108] == 1,
            forall|k: int| 109 <= k < r@.len() ==> r@[k] == 0,
            r@.subrange(0, 72) == spec_address_bytes(*mint) + spec_address_bytes(*owner)
                + vstd::bytes::spec_u64_to_le_bytes(0u64),
        decreases 56 - j,
    {
        r.push(0u8);
        proof {
            assert(r@.subrange(0, 72) =~= r@.subrange(0, r@.len() - 1).subrange(0, 72));
        }
        j = j + 1;
    }
    proof {
        lemma_fresh_account_fields(r@, *mint, *owner);
        vstd::bytes::lemma_auto_spec_u64_to_from_le_bytes();
        let head = r@.subrange(0, 72);
        let mb = spec_address_bytes(*mint);
        let ob = spec_address_bytes(*owner);
        let zb = vstd::bytes::spec_u64_to_le_bytes(0u64);
        assert forall|k: int| 0 <= k < 165 implies r@[k] == spec_fresh_token_account_bytes(
            *mint,
            *owner,
        )[k] by {
            if k < 72 {
                assert(head[k] == r@[k]);
                assert(head[k] == (mb + ob + zb)[k]);
            }
        }
        assert(r@ =~= spec_fresh_token_account_bytes(*mint, *owner));
    }
    r
}

/// The field equations of a record whose first 72 bytes are a mint address,
/// an owner address and a zero balance.
proof fn lemma_fresh_account_fields(s: Seq<u8>, mint: Address, owner: Address)
    requires
        s.len() == 165,
        s.subrange(0, 72) == spec_address_bytes(mint) + spec_address_bytes(owner)
            + vstd::bytes::spec_u64_to_le_bytes(0u64),
    ensures
        spec_token_account_mint(s) == mint,
        spec_token_account_owner(s) == owner,
        spec_token_account_amount(s) == 0,
{
    vstd::bytes::lemma_auto_spec_u64_to_from_le_bytes();
    let head = s.subrange(0, 72);
    let mb = spec_address_bytes(mint);
    let ob = spec_address_bytes(owner);
    let zb = vstd::bytes::spec_u64_to_le_bytes(0u64);
    assert(mb.len() == 32 && ob.len() == 32 && zb.len() == 8);
    assert forall|k: int| 0 <= k < 32 implies #[trigger] s[k] == mb[k] by {
        assert(head[k] == s[k]);
        assert(head[k] == (mb + ob + zb)[k]);
    }
    assert forall|k: int| 32 <= k < 64 implies #[trigger] s[k] == ob[k - 32] by {
        assert(head[k] == s[k]);
        assert(head[k] == (mb + ob + zb)[k]);
    }
    assert forall|k: int| 64 <= k < 72 implies #[trigger] s[k] == zb[k - 64] by {
        assert(head[k] == s[k]);
        assert(head[k] == (mb + ob + zb)[k]);
    }
    assert(s.subrange(0, 8) =~= mb.subrange(0, 8));
    assert(s.subrange(8, 16) =~= mb.subrange(8, 16));
    assert(s.subrange(16, 24) =~= mb.subrange(16, 24));
    assert(s.subrange(24, 32) =~= mb.subrange(24, 32));
    assert(mb.subrange(0, 8) =~= vstd::bytes::spec_u64_to_le_bytes(mint.w0));
    assert(mb.subrange(8, 16) =~= vstd::bytes::spec_u64_to_le_bytes(mint.w1));
    assert(mb.subrange(16, 24) =~= vstd::bytes::spec_u64_to_le_bytes(mint.w2));
    assert(mb.subrange(24, 32) =~= vstd::bytes::spec_u64_to_le_bytes(mint.w3));
    assert(s.subrange(32, 40) =~= ob.subrange(0, 8));
    assert(s.subrange(40, 48) =~= ob.subrange(8, 16));
    assert(s.subrange(48, 56) =~= ob.subrange(16, 24));
    assert(s.subrange(56, 64) =~= ob.subrange(24, 32));
    assert(ob.subrange(0, 8) =~= vstd::bytes::spec_u64_to_le_bytes(owner.w0));
    assert(ob.subrange(8, 16) =~= vstd::bytes::spec_u64_to_le_bytes(owner.w1));
    assert(ob.subrange(16, 24) =~= vstd::bytes::spec_u64_to_le_bytes(owner.w2));
    assert(ob.subrange(24, 32) =~= vstd::bytes::spec_u64_to_le_bytes(owner.w3));
    assert(s.subrange(64, 72) =~= zb);
}

} // verus!
