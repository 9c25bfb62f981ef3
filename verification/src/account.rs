//! The account model the engine works on: 32-byte ledger addresses and the
//! per-account snapshot (key, owner, flags, lamports, raw data) that a swap
//! instruction hands in.  Addresses are held as four little-endian 64-bit
//! words, matching the aligned form the order-book layouts store them in.
use vstd::prelude::*;
use vstd::bytes::{spec_u64_from_le_bytes, spec_u128_from_le_bytes, u64_from_le_bytes,
    u128_from_le_bytes, u64_to_le_bytes};
use vstd::slice::slice_subrange;

verus! {

/// A 32-byte ledger address, stored as four little-endian 64-bit words.
#[derive(Clone, Copy, PartialEq, Eq, Structural, Debug)]
pub struct Address {
    pub w0: u64,
    pub w1: u64,
    pub w2: u64,
    pub w3: u64,
}

/// The little-endian 64-bit word of `s` starting at byte `offset`.
pub open spec fn spec_word_at(s: Seq<u8>, offset: int) -> u64 {
    spec_u64_from_le_bytes(s.subrange(offset, offset + 8))
}

/// The little-endian 128-bit word of `s` starting at byte `offset`.
pub open spec fn spec_u128_at(s: Seq<u8>, offset: int) -> u128 {
    spec_u128_from_le_bytes(s.subrange(offset, offset + 16))
}

/// The address stored in `s` at byte `offset`, read as four little-endian
/// words.
pub open spec fn spec_address_at(s: Seq<u8>, offset: int) -> Address {
    Address {
        w0: spec_word_at(s, offset),
        w1: spec_word_at(s, offset + 8),
        w2: spec_word_at(s, offset + 16),
        w3: spec_word_at(s, offset + 24),
    }
}

/// The 32-byte little-endian encoding of an address.
pub open spec fn spec_address_bytes(a: Address) -> Seq<u8> {
    vstd::bytes::spec_u64_to_le_bytes(a.w0) + vstd::bytes::spec_u64_to_le_bytes(a.w1)
        + vstd::bytes::spec_u64_to_le_bytes(a.w2) + vstd::bytes::spec_u64_to_le_bytes(a.w3)
}

pub fn read_u64_le(data: &[u8], offset: usize) -> (r: u64)
    requires
        offset + 8 <= data@.len(),
    ensures
        r == spec_word_at(data@, offset as int),
{
    let n = data.len();
    u64_from_le_bytes(slice_subrange(data, offset, offset + 8))
}

pub fn read_u128_le(data: &[u8], offset: usize) -> (r: u128)
    requires
        offset + 16 <= data@.len(),
    ensures
        r == spec_u128_at(data@, offset as int),
{
    let n = data.len();
    u128_from_le_bytes(slice_subrange(data, offset, offset + 16))
}

pub fn read_address(data: &[u8], offset: usize) -> (r: Address)
    requires
        offset + 32 <= data@.len(),
    ensures
        r == spec_address_at(data@, offset as int),
{
    let n = data.len();
    Address {
        w0: read_u64_le(data, offset),
        w1: read_u64_le(data, offset + 8),
        w2: read_u64_le(data, offset + 16),
        w3: read_u64_le(data, offset + 24),
    }
}

impl Address {
    /// The 32-byte form of the address, used as a derivation seed.
    pub fn to_bytes(&self) -> (r: Vec<u8>)
        ensures
            r@ == spec_address_bytes(*self),
            r@.len() == 32,
    {
        proof {
            vstd::bytes::lemma_auto_spec_u64_to_from_le_bytes();
        }
        let mut r = u64_to_le_bytes(self.w0);
        let mut r1 = u64_to_le_bytes(self.w1);
        let mut r2 = u64_to_le_bytes(self.w2);
        let mut r3 = u64_to_le_bytes(self.w3);
        r.append(&mut r1);
        r.append(&mut r2);
        r.append(&mut r3);
        r
    }

    /// Reads an address back from its 32-byte form.
    pub fn from_bytes(data: &[u8]) -> (r: Address)
        requires
            data@.len() == 32,
        ensures
            r == spec_address_at(data@, 0),
    {
        read_address(data, 0)
    }
}

/// One operand account as the instruction presents it: an addressed, owned
/// byte buffer plus its transaction-level metadata.
pub struct AccountData {
    pub key: Address,
    pub owner: Address,
    pub is_writable: bool,
    pub is_signer: bool,
    pub lamports: u64,
    pub data: Vec<u8>,
}

/// The ledger clock as the engine reads it: a monotonic slot counter and a
/// wall-clock timestamp.
#[derive(Clone, Copy, PartialEq, Eq, Structural, Debug)]
pub struct ClockView {
    pub slot: u64,
    pub unix_timestamp: i64,
}

/// Whether `s` is a well-formed clock sysvar payload: five 8-byte fields.
pub open spec fn spec_clock_data_valid(s: Seq<u8>) -> bool {
    s.len() >= 40
}

/// The clock values stored in a clock sysvar payload: the slot is the first
/// word, the wall-clock timestamp the fifth.
pub open spec fn spec_clock_at(s: Seq<u8>) -> ClockView {
    ClockView { slot: spec_word_at(s, 0), unix_timestamp: spec_word_at(s, 32) as i64 }
}

/// Decodes the clock sysvar account.  The caller is expected to have checked
/// the account's key against the clock sysvar address.
pub fn decode_clock(data: &[u8]) -> (r: Option<ClockView>)
    ensures
        r is Some <==> spec_clock_data_valid(data@),
        r matches Some(c) ==> c == spec_clock_at(data@),
{
    if data.len() < 40 {
        return None;
    }
    let slot = read_u64_le(data, 0);
    let ts = read_u64_le(data, 32);
    Some(ClockView { slot, unix_timestamp: ts as i64 })
}

} // verus!
