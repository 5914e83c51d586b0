use anchor_lang::solana_program::pubkey::Pubkey;
use baai_nodes::address::Address;
use baai_nodes::derivation::{
    associated_token_address, derive_address, find_program_address, ASSOCIATED_TOKEN_PROGRAM_ID,
    TOKEN_PROGRAM_ID,
};

fn program() -> [u8; 32] {
    let mut b = [0u8; 32];
    for (i, x) in b.iter_mut().enumerate() {
        *x = (i as u8).wrapping_mul(7).wrapping_add(3);
    }
    b
}

#[test]
fn program_ids_match_token_crates() {
    assert_eq!(TOKEN_PROGRAM_ID, anchor_spl::token::ID.to_bytes());
    assert_eq!(ASSOCIATED_TOKEN_PROGRAM_ID, anchor_spl::associated_token::ID.to_bytes());
}

#[test]
fn same_compares_every_byte() {
    let a = Address::new([5; 32]);
    let mut other = [5u8; 32];
    assert!(a.same(&Address::new(other)));
    other[31] = 6;
    assert!(!a.same(&Address::new(other)));
    assert_eq!(a.to_vec(), vec![5u8; 32]);
}

#[test]
fn find_program_address_gives_canonical_bump() {
    let pid = Pubkey::new_from_array(program());
    let (expected, bump) = Pubkey::find_program_address(&[b"vault"], &pid);
    let seeds = vec![b"vault".to_vec()];
    let (a, b) = find_program_address(&seeds, &Address::new(program())).unwrap();
    assert_eq!(b, bump);
    assert_eq!(a.bytes, expected.to_bytes());
    assert_ne!(a.bytes, program());
}

#[test]
fn derive_address_with_bump() {
    let pid = Pubkey::new_from_array(program());
    let (expected, bump) = Pubkey::find_program_address(&[b"vault"], &pid);
    let seeds = vec![b"vault".to_vec()];
    let a = derive_address(&seeds, bump, &Address::new(program())).unwrap();
    assert_eq!(a.bytes, expected.to_bytes());
}

#[test]
fn derive_address_refuses_on_curve_hash() {
    // Some bump above the canonical one derives a point on the curve.
    let pid = Pubkey::new_from_array(program());
    let mut found = false;
    for seed in 0u8..64 {
        let (_, bump) = Pubkey::find_program_address(&[&[seed]], &pid);
        if bump < 255 {
            let seeds = vec![vec![seed]];
            assert!(derive_address(&seeds, bump + 1, &Address::new(program())).is_none());
            found = true;
            break;
        }
    }
    assert!(found);
}

#[test]
fn associated_token_address_matches_token_crate() {
    let wallet = [9u8; 32];
    let mint = [4u8; 32];
    let expected = anchor_spl::associated_token::get_associated_token_address(
        &Pubkey::new_from_array(wallet),
        &Pubkey::new_from_array(mint),
    );
    let a = associated_token_address(&Address::new(wallet), &Address::new(mint)).unwrap();
    assert_eq!(a.bytes, expected.to_bytes());
    assert_ne!(a.bytes, wallet);
}
