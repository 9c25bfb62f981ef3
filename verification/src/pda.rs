//! Derived, key-less authority addresses.  A custody record's holding
//! accounts and signer authority have no private key: each address is a hash
//! of a seed tuple (this program's id, the custody record's address, a
//! domain tag, and a one-byte bump), recomputed and compared on every use.
//! The hash itself is the host library's; everything around it is verified.
use vstd::prelude::*;
use crate::account::{Address, spec_address_bytes, spec_address_at};
use crate::error::Error;
use crate::{program_id, spec_program_id};

verus! {

/// The address a seed tuple derives to under a program id, or `None` when
/// the derivation fails (the hash lands on the ed25519 curve, or a seed
/// bound is exceeded).  The derivation is a digest: a function of the seeds
/// and the program id alone.
pub uninterp spec fn pda_of(seeds: Seq<Seq<u8>>, program_id: Seq<u8>) -> Option<Seq<u8>>;

/// The byte views of a seed list.
pub open spec fn spec_seeds_view(seeds: Seq<Vec<u8>>) -> Seq<Seq<u8>> {
    seeds.map_values(|s: Vec<u8>| s@)
}

/// [`pda_of`] with both the program id and the result as [`Address`] values.
pub open spec fn spec_create_program_address(seeds: Seq<Seq<u8>>, pid: Address) -> Option<Address> {
    match pda_of(seeds, spec_address_bytes(pid)) {
        None => None,
        Some(bytes) => Some(spec_address_at(bytes, 0)),
    }
}

/// Relies on solana_program's `Pubkey::create_program_address`: the derived
/// address is a function of the seeds and the program id alone, 32 bytes
/// long, and the call fails exactly when that derivation has no valid
/// address (hash on the curve, or seed bounds exceeded).
#[verifier::external_body]
fn create_program_address_raw(seeds: &Vec<Vec<u8>>, pid: &Vec<u8>) -> (r: Option<Vec<u8>>)
    requires
        pid@.len() == 32,
    ensures
        r is Some <==> pda_of(spec_seeds_view(seeds@), pid@) is Some,
        r matches Some(v) ==> Some(v@) == pda_of(spec_seeds_view(seeds@), pid@) && v@.len() == 32,
{
    let mut pid_bytes = [0u8; 32];
    pid_bytes.copy_from_slice(pid.as_slice());
    let seed_refs: Vec<&[u8]> = seeds.iter().map(|s| s.as_slice()).collect();
    match solana_program::pubkey::Pubkey::create_program_address(
        &seed_refs,
        &solana_program::pubkey::Pubkey::new_from_array(pid_bytes),
    ) {
        Ok(p) => Some(p.to_bytes().to_vec()),
        Err(_) => None,
    }
}

/// Recomputes the address a seed tuple derives to under this program.
pub fn create_program_address(seeds: &Vec<Vec<u8>>, pid: &Address) -> (r: Option<Address>)
    ensures
        r == spec_create_program_address(spec_seeds_view(seeds@), *pid),
{
    let pid_bytes = pid.to_bytes();
    match create_program_address_raw(seeds, &pid_bytes) {
        Some(v) => Some(Address::from_bytes(v.as_slice())),
        None => None,
    }
}

/// The `"tokenaccount"` domain tag.
pub open spec fn spec_token_account_seed_tag() -> Seq<u8> {
    seq![116u8, 111u8, 107u8, 101u8, 110u8, 97u8, 99u8, 99u8, 111u8, 117u8, 110u8, 116u8]
}

/// The `"temporarywsoltokenaccount"` domain tag.
pub open spec fn spec_temporary_w_sol_seed_tag() -> Seq<u8> {
    seq![
        116u8, 101u8, 109u8, 112u8, 111u8, 114u8, 97u8, 114u8, 121u8, 119u8, 115u8, 111u8, 108u8,
        116u8, 111u8, 107u8, 101u8, 110u8, 97u8, 99u8, 99u8, 111u8, 117u8, 110u8, 116u8,
    ]
}

/// The `"selfauthority"` domain tag.
pub open spec fn spec_self_authority_seed_tag() -> Seq<u8> {
    seq![115u8, 101u8, 108u8, 102u8, 97u8, 117u8, 116u8, 104u8, 111u8, 114u8, 105u8, 116u8, 121u8]
}

/// The seed tuple of a custody record's token holding account for a mint.
pub open spec fn spec_token_account_seeds(intermediary: Address, token_mint: Address, bump_seed: u8) -> Seq<Seq<u8>> {
    seq![
        spec_address_bytes(spec_program_id()),
        spec_address_bytes(intermediary),
        spec_address_bytes(token_mint),
        spec_token_account_seed_tag(),
        seq![bump_seed],
    ]
}

/// The seed tuple of a custody record's temporary holding account.
pub open spec fn spec_temporary_w_sol_seeds(intermediary: Address, bump_seed: u8) -> Seq<Seq<u8>> {
    seq![
        spec_address_bytes(spec_program_id()),
        spec_address_bytes(intermediary),
        spec_temporary_w_sol_seed_tag(),
        seq![bump_seed],
    ]
}

/// The seed tuple of a custody record's signer authority.
pub open spec fn spec_self_authority_seeds(intermediary: Address, bump_seed: u8) -> Seq<Seq<u8>> {
    seq![
        spec_address_bytes(spec_program_id()),
        spec_address_bytes(intermediary),
        spec_self_authority_seed_tag(),
        seq![bump_seed],
    ]
}

/// Resolves the derived addresses of a custody record: each role has its own
/// domain tag, and every caller must re-derive and compare before trusting a
/// stored address.
pub struct PdaResolver;

impl PdaResolver {
    /// The holding-account seed tuple, bump included.
    pub fn token_account_get_seeds(intermediary: &Address, token_mint: &Address, bump_seed: u8) -> (r: Vec<Vec<u8>>)
        ensures
            spec_seeds_view(r@) == spec_token_account_seeds(*intermediary, *token_mint, bump_seed),
    {
        let mut r: Vec<Vec<u8>> = Vec::new();
        r.push(program_id().to_bytes());
        r.push(intermediary.to_bytes());
        r.push(token_mint.to_bytes());
        r.push(vec![116u8, 111u8, 107u8, 101u8, 110u8, 97u8, 99u8, 99u8, 111u8, 117u8, 110u8, 116u8]);
        r.push(vec![bump_seed]);
        proof {
            assert(spec_seeds_view(r@) =~~= spec_token_account_seeds(*intermediary, *token_mint, bump_seed));
        }
        r
    }

    /// Re-derives the holding account for a mint from its stored bump.
    pub fn token_account_create(intermediary: &Address, token_mint: &Address, bump_seed: u8) -> (r: Result<Address, Error>)
        ensures
            r matches Ok(a) ==> spec_create_program_address(
                spec_token_account_seeds(*intermediary, *token_mint, bump_seed),
                spec_program_id(),
            ) == Some(a),
            r is Err <==> spec_create_program_address(
                spec_token_account_seeds(*intermediary, *token_mint, bump_seed),
                spec_program_id(),
            ) is None,
            r is Err ==> r == Err::<Address, Error>(Error::InvalidSeeds),
    {
        let seeds = Self::token_account_get_seeds(intermediary, token_mint, bump_seed);
        match create_program_address(&seeds, &program_id()) {
            Some(a) => Ok(a),
            None => Err(Error::InvalidSeeds),
        }
    }

    /// The temporary-account seed tuple, bump included.
    pub fn temporary_w_sol_token_account_get_seeds(intermediary: &Address, bump_seed: u8) -> (r: Vec<Vec<u8>>)
        ensures
            spec_seeds_view(r@) == spec_temporary_w_sol_seeds(*intermediary, bump_seed),
    {
        let mut r: Vec<Vec<u8>> = Vec::new();
        r.push(program_id().to_bytes());
        r.push(intermediary.to_bytes());
        r.push(
            vec![
                116u8, 101u8, 109u8, 112u8, 111u8, 114u8, 97u8, 114u8, 121u8, 119u8, 115u8, 111u8,
                108u8, 116u8, 111u8, 107u8, 101u8, 110u8, 97u8, 99u8, 99u8, 111u8, 117u8, 110u8,
                116u8,
            ],
        );
        r.push(vec![bump_seed]);
        proof {
            assert(spec_seeds_view(r@) =~~= spec_temporary_w_sol_seeds(*intermediary, bump_seed));
        }
        r
    }

    /// Re-derives the temporary holding account from its stored bump.
    pub fn temporary_w_sol_token_account_create(intermediary: &Address, bump_seed: u8) -> (r: Result<Address, Error>)
        ensures
            r matches Ok(a) ==> spec_create_program_address(
                spec_temporary_w_sol_seeds(*intermediary, bump_seed),
                spec_program_id(),
            ) == Some(a),
            r is Err <==> spec_create_program_address(
                spec_temporary_w_sol_seeds(*intermediary, bump_seed),
                spec_program_id(),
            ) is None,
            r is Err ==> r == Err::<Address, Error>(Error::InvalidSeeds),
    {
        let seeds = Self::temporary_w_sol_token_account_get_seeds(intermediary, bump_seed);
        match create_program_address(&seeds, &program_id()) {
            Some(a) => Ok(a),
            None => Err(Error::InvalidSeeds),
        }
    }

    /// The signer-authority seed tuple, bump included.
    pub fn self_authority_get_seeds(intermediary: &Address, bump_seed: u8) -> (r: Vec<Vec<u8>>)
        ensures
            spec_seeds_view(r@) == spec_self_authority_seeds(*intermediary, bump_seed),
    {
        let mut r: Vec<Vec<u8>> = Vec::new();
        r.push(program_id().to_bytes());
        r.push(intermediary.to_bytes());
        r.push(
            vec![
                115u8, 101u8, 108u8, 102u8, 97u8, 117u8, 116u8, 104u8, 111u8, 114u8, 105u8, 116u8,
                121u8,
            ],
        );
        r.push(vec![bump_seed]);
        proof {
            assert(spec_seeds_view(r@) =~~= spec_self_authority_seeds(*intermediary, bump_seed));
        }
        r
    }

    /// Re-derives the signer authority from its stored bump.
    pub fn self_authority_create(intermediary: &Address, bump_seed: u8) -> (r: Result<Address, Error>)
        ensures
            r matches Ok(a) ==> spec_create_program_address(
                spec_self_authority_seeds(*intermediary, bump_seed),
                spec_program_id(),
            ) == Some(a),
            r is Err <==> spec_create_program_address(
                spec_self_authority_seeds(*intermediary, bump_seed),
                spec_program_id(),
            ) is None,
            r is Err ==> r == Err::<Address, Error>(Error::InvalidSeeds),
    {
        let seeds = Self::self_authority_get_seeds(intermediary, bump_seed);
        match create_program_address(&seeds, &program_id()) {
            Some(a) => Ok(a),
            None => Err(Error::InvalidSeeds),
        }
    }

    /// Searches for the holding account's bump: the highest bump byte whose
    /// seed tuple derives to a valid address.  `None` when no bump works
    /// (practically unreachable, but surfaced rather than panicked on).
    pub fn token_account_find(intermediary: &Address, token_mint: &Address) -> (r: Option<(Address, u8)>)
        ensures
            r matches Some(p) ==> {
                &&& spec_create_program_address(
                    spec_token_account_seeds(*intermediary, *token_mint, p.1),
                    spec_program_id(),
                ) == Some(p.0)
                &&& forall|b2: u8|
                    b2 > p.1 ==> spec_create_program_address(
                        #[trigger] spec_token_account_seeds(*intermediary, *token_mint, b2),
                        spec_program_id(),
                    ) is None
            },
            r is None ==> forall|b2: u8|
                spec_create_program_address(
                    #[trigger] spec_token_account_seeds(*intermediary, *token_mint, b2),
                    spec_program_id(),
                ) is None,
    {
        let mut bump: u8 = 255;
        loop
            invariant
                forall|b2: u8|
                    b2 > bump ==> spec_create_program_address(
                        #[trigger] spec_token_account_seeds(*intermediary, *token_mint, b2),
                        spec_program_id(),
                    ) is None,
            decreases bump,
        {
            match Self::token_account_create(intermediary, token_mint, bump) {
                Ok(a) => {
                    return Some((a, bump));
                },
                Err(_) => {},
            }
            if bump == 0 {
                return None;
            }
            bump = bump - 1;
        }
    }

    /// Searches for the temporary holding account's bump.
    pub fn temporary_w_sol_token_account_find(intermediary: &Address) -> (r: Option<(Address, u8)>)
        ensures
            r matches Some(p) ==> {
                &&& spec_create_program_address(
                    spec_temporary_w_sol_seeds(*intermediary, p.1),
                    spec_program_id(),
                ) == Some(p.0)
                &&& forall|b2: u8|
                    b2 > p.1 ==> spec_create_program_address(
                        #[trigger] spec_temporary_w_sol_seeds(*intermediary, b2),
                        spec_program_id(),
                    ) is None
            },
            r is None ==> forall|b2: u8|
                spec_create_program_address(
                    #[trigger] spec_temporary_w_sol_seeds(*intermediary, b2),
                    spec_program_id(),
                ) is None,
    {
        let mut bump: u8 = 255;
        loop
            invariant
                forall|b2: u8|
                    b2 > bump ==> spec_create_program_address(
                        #[trigger] spec_temporary_w_sol_seeds(*intermediary, b2),
                        spec_program_id(),
                    ) is None,
            decreases bump,
        {
            match Self::temporary_w_sol_token_account_create(intermediary, bump) {
                Ok(a) => {
                    return Some((a, bump));
                },
                Err(_) => {},
            }
            if bump == 0 {
                return None;
            }
            bump = bump - 1;
        }
    }

    /// Searches for the signer authority's bump.
    pub fn self_authority_find(intermediary: &Address) -> (r: Option<(Address, u8)>)
        ensures
            r matches Some(p) ==> {
                &&& spec_create_program_address(
                    spec_self_authority_seeds(*intermediary, p.1),
                    spec_program_id(),
                ) == Some(p.0)
                &&& forall|b2: u8|
                    b2 > p.1 ==> spec_create_program_address(
                        #[trigger] spec_self_authority_seeds(*intermediary, b2),
                        spec_program_id(),
                    ) is None
            },
            r is None ==> forall|b2: u8|
                spec_create_program_address(
                    #[trigger] spec_self_authority_seeds(*intermediary, b2),
                    spec_program_id(),
                ) is None,
    {
        let mut bump: u8 = 255;
        loop
            invariant
                forall|b2: u8|
                    b2 > bump ==> spec_create_program_address(
                        #[trigger] spec_self_authority_seeds(*intermediary, b2),
                        spec_program_id(),
                    ) is None,
            decreases bump,
        {
            match Self::self_authority_create(intermediary, bump) {
                Ok(a) => {
                    return Some((a, bump));
                },
                Err(_) => {},
            }
            if bump == 0 {
                return None;
            }
            bump = bump - 1;
        }
    }
}

} // verus!
