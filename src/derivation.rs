//! Program derived addresses: addresses computed from a list of seeds and a
//! program id, which lie off the ed25519 curve and so have no private key.
use vstd::prelude::*;
use anchor_lang::solana_program::pubkey::Pubkey;
use crate::address::Address;

verus! {

/// Most seeds that one derivation accepts.
pub const MAX_SEEDS: usize = 16;

/// Longest seed that one derivation accepts.
pub const MAX_SEED_LEN: usize = 32;

/// Id of the token program that keeps token accounts.
pub const TOKEN_PROGRAM_ID: [u8; 32] = [
    6, 221, 246, 225, 215, 101, 161, 147, 217, 203, 225, 70, 206, 235, 121, 172,
    28, 180, 133, 237, 95, 91, 55, 145, 58, 140, 245, 133, 126, 255, 0, 169,
];

/// Id of the program that owns associated token accounts.
pub const ASSOCIATED_TOKEN_PROGRAM_ID: [u8; 32] = [
    140, 151, 37, 143, 78, 36, 137, 241, 187, 61, 16, 41, 20, 142, 13, 131,
    11, 90, 19, 153, 218, 255, 16, 132, 4, 142, 123, 216, 219, 233, 248, 89,
];

/// The address derived from `seeds` under `program`, or `None` where the hash
/// of the seeds lies on the curve (and so could have a private key).
pub uninterp spec fn program_address(seeds: Seq<Seq<u8>>, program: Seq<u8>) -> Option<Seq<u8>>;

pub open spec fn seed_views(seeds: Seq<Vec<u8>>) -> Seq<Seq<u8>> {
    seeds.map_values(|s: Vec<u8>| s@)
}

/// Every seed fits and there is room for `extra` more of them.
pub open spec fn seeds_fit(seeds: Seq<Seq<u8>>, extra: nat) -> bool {
    &&& seeds.len() + extra <= MAX_SEEDS
    &&& forall|i: int| 0 <= i < seeds.len() ==> #[trigger] seeds[i].len() <= MAX_SEED_LEN
}

/// The seeds followed by the one-byte bump seed.
pub open spec fn with_bump(seeds: Seq<Seq<u8>>, bump: u8) -> Seq<Seq<u8>> {
    seeds.push(seq![bump])
}

/// `bump` is the highest non-zero bump under which the seeds derive an address.
pub open spec fn is_canonical_bump(seeds: Seq<Seq<u8>>, program: Seq<u8>, bump: u8) -> bool {
    &&& 1 <= bump
    &&& program_address(with_bump(seeds, bump), program).is_some()
    &&& forall|c: u8| bump < c ==> #[trigger] program_address(with_bump(seeds, c), program).is_none()
}

/// No non-zero bump lets the seeds derive an address.
pub open spec fn no_bump(seeds: Seq<Seq<u8>>, program: Seq<u8>) -> bool {
    forall|c: u8| 1 <= c ==> #[trigger] program_address(with_bump(seeds, c), program).is_none()
}

/// What searching for the canonical bump of `seeds` under `program` yields:
/// the address and its bump, or nothing where no bump works.
pub open spec fn bump_search(seeds: Seq<Seq<u8>>, program: Seq<u8>) -> Option<(Seq<u8>, u8)> {
    if exists|b: u8| is_canonical_bump(seeds, program, b) {
        let b = choose|b: u8| is_canonical_bump(seeds, program, b);
        Some((program_address(with_bump(seeds, b), program).unwrap(), b))
    } else {
        None
    }
}

/// Two canonical bumps of the same seeds are the same bump.
pub proof fn lemma_canonical_bump_unique(seeds: Seq<Seq<u8>>, program: Seq<u8>, b1: u8, b2: u8)
    requires
        is_canonical_bump(seeds, program, b1),
        is_canonical_bump(seeds, program, b2),
    ensures
        b1 == b2,
{
    if b1 < b2 {
        assert(program_address(with_bump(seeds, b2), program).is_none());
    } else if b2 < b1 {
        assert(program_address(with_bump(seeds, b1), program).is_none());
    }
}

/// Relies on `Pubkey::create_program_address` of solana-program: within the
/// seed limits it fails only where the hash of the seeds lies on the curve,
/// and otherwise returns the derived address.
#[verifier::external_body]
fn create_program_address(seeds: &Vec<Vec<u8>>, program: &Address) -> (r: Option<Address>)
    requires
        seeds_fit(seed_views(seeds@), 0),
    ensures
        match r {
            Some(a) => program_address(seed_views(seeds@), program@) == Some(a@),
            None => program_address(seed_views(seeds@), program@).is_none(),
        },
{
    let s: Vec<&[u8]> = seeds.iter().map(|v| v.as_slice()).collect();
    match Pubkey::create_program_address(&s, &Pubkey::new_from_array(program.bytes)) {
        Ok(k) => Some(Address { bytes: k.to_bytes() }),
        Err(_) => None,
    }
}

/// Relies on `Pubkey::try_find_program_address` of solana-program: it tries
/// the bumps from 255 down to 1, appended as a last one-byte seed, and returns
/// the first address that `create_program_address` derives, with its bump.
#[verifier::external_body]
fn try_find_program_address(seeds: &Vec<Vec<u8>>, program: &Address) -> (r: Option<(Address, u8)>)
    requires
        seeds_fit(seed_views(seeds@), 1),
    ensures
        match r {
            Some((a, b)) => is_canonical_bump(seed_views(seeds@), program@, b)
                && program_address(with_bump(seed_views(seeds@), b), program@) == Some(a@),
            None => no_bump(seed_views(seeds@), program@),
        },
{
    let s: Vec<&[u8]> = seeds.iter().map(|v| v.as_slice()).collect();
    Pubkey::try_find_program_address(&s, &Pubkey::new_from_array(program.bytes))
        .map(|(k, b)| (Address { bytes: k.to_bytes() }, b))
}

/// Derives the address of `seeds` followed by the bump seed `bump`.
pub fn derive_address(seeds: &Vec<Vec<u8>>, bump: u8, program: &Address) -> (r: Option<Address>)
    requires
        seeds_fit(seed_views(seeds@), 1),
    ensures
        match r {
            Some(a) => program_address(with_bump(seed_views(seeds@), bump), program@) == Some(a@),
            None => program_address(with_bump(seed_views(seeds@), bump), program@).is_none(),
        },
{
    let mut all = seeds.clone();
    let mut last: Vec<u8> = Vec::new();
    last.push(bump);
    all.push(last);
    assert(seed_views(all@) =~= with_bump(seed_views(seeds@), bump));
    create_program_address(&all, program)
}

/// Finds the canonical bump of `seeds` under `program`, with its address.
pub fn find_program_address(seeds: &Vec<Vec<u8>>, program: &Address) -> (r: Option<(Address, u8)>)
    requires
        seeds_fit(seed_views(seeds@), 1),
    ensures
        match r {
            Some((a, b)) => bump_search(seed_views(seeds@), program@) == Some((a@, b)),
            None => bump_search(seed_views(seeds@), program@).is_none(),
        },
{
    let r = try_find_program_address(seeds, program);
    proof {
        let s = seed_views(seeds@);
        match r {
            Some((a, b)) => {
                let c = choose|c: u8| is_canonical_bump(s, program@, c);
                lemma_canonical_bump_unique(s, program@, b, c);
            },
            None => {
                if exists|c: u8| is_canonical_bump(s, program@, c) {
                    let c = choose|c: u8| is_canonical_bump(s, program@, c);
                    assert(program_address(with_bump(s, c), program@).is_none());
                }
            },
        }
    }
    r
}

/// Seeds of the associated token account of `wallet` for `mint`.
pub open spec fn associated_seeds(wallet: Seq<u8>, mint: Seq<u8>) -> Seq<Seq<u8>> {
    seq![wallet, TOKEN_PROGRAM_ID@, mint]
}

/// The associated token account of `wallet` for `mint`: the canonical derived
/// address of its seeds under the associated token program.
pub open spec fn associated_address(wallet: Seq<u8>, mint: Seq<u8>) -> Option<Seq<u8>> {
    match bump_search(associated_seeds(wallet, mint), ASSOCIATED_TOKEN_PROGRAM_ID@) {
        Some((a, _)) => Some(a),
        None => None,
    }
}

/// Resolves the associated token account of `wallet` for `mint`.
pub fn associated_token_address(wallet: &Address, mint: &Address) -> (r: Option<Address>)
    ensures
        match r {
            Some(a) => associated_address(wallet@, mint@) == Some(a@),
            None => associated_address(wallet@, mint@).is_none(),
        },
{
    let token_program = Address::new(TOKEN_PROGRAM_ID);
    let mut seeds: Vec<Vec<u8>> = Vec::new();
    seeds.push(wallet.to_vec());
    seeds.push(token_program.to_vec());
    seeds.push(mint.to_vec());
    assert(seed_views(seeds@) =~= associated_seeds(wallet@, mint@));
    let program = Address::new(ASSOCIATED_TOKEN_PROGRAM_ID);
    match find_program_address(&seeds, &program) {
        Some((a, _)) => Some(a),
        None => None,
    }
}

} // verus!
