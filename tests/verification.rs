use anchor_lang::solana_program::pubkey::Pubkey;
use baai_nodes::address::Address;
use baai_nodes::token::TokenAccount;
use baai_nodes::verification::{
    initialize, mint_if_accepted, verify_and_mint, AcceptAll, FociiVerifierError, Initialize, Verifier,
    VerifyAndMint,
};

const ADMIN: [u8; 32] = [1; 32];
const REWARD_MINT: [u8; 32] = [2; 32];
const LICENSE_MINT: [u8; 32] = [3; 32];
const OWNER: [u8; 32] = [5; 32];
const REWARDS_ACCOUNT: [u8; 32] = [6; 32];
const LICENSE_ACCOUNT: [u8; 32] = [8; 32];
const PROGRAM: [u8; 32] = [11; 32];

fn derived() -> ([u8; 32], u8) {
    let (k, b) = Pubkey::find_program_address(&[b"verifier"], &Pubkey::new_from_array(PROGRAM));
    (k.to_bytes(), b)
}

fn init_ctx(account: [u8; 32]) -> Initialize {
    Initialize {
        verifier: Address::new(account),
        reward_token_mint: Address::new(REWARD_MINT),
        node_license_mint: Address::new(LICENSE_MINT),
        authority: Address::new(ADMIN),
        program_id: Address::new(PROGRAM),
    }
}

fn record() -> Verifier {
    initialize(&init_ctx(derived().0)).unwrap()
}

fn mint_ctx(license_owner: [u8; 32]) -> VerifyAndMint {
    VerifyAndMint {
        verifier_address: Address::new(derived().0),
        verifier: record(),
        reward_token_mint: Address::new(REWARD_MINT),
        node_license_mint: Address::new(LICENSE_MINT),
        node_license: TokenAccount {
            address: Address::new(LICENSE_ACCOUNT),
            mint: Address::new(LICENSE_MINT),
            owner: Address::new(license_owner),
        },
        node_owner: Address::new(OWNER),
        rewards_account: Address::new(REWARDS_ACCOUNT),
        program_id: Address::new(PROGRAM),
    }
}

#[test]
fn initialize_stores_canonical_bump() {
    let v = record();
    assert_eq!(v.bump, derived().1);
    assert_eq!(v.authority.bytes, ADMIN);
    assert_eq!(v.reward_token_mint.bytes, REWARD_MINT);
    assert_eq!(v.node_license_mint.bytes, LICENSE_MINT);
}

#[test]
fn initialize_refuses_account_off_derived_address() {
    let r = initialize(&init_ctx([12; 32]));
    assert_eq!(r.unwrap_err(), FociiVerifierError::InvalidVerifierAddress);
}

#[test]
fn verify_and_mint_signs_with_derived_identity() {
    let ctx = mint_ctx(OWNER);
    let mint = verify_and_mint(&ctx, &AcceptAll, vec![1, 2, 3], 250).unwrap();
    assert_eq!(mint.amount, 250);
    assert_eq!(mint.mint.bytes, REWARD_MINT);
    assert_eq!(mint.to.bytes, REWARDS_ACCOUNT);
    assert_eq!(mint.authority.bytes, derived().0);
    assert_eq!(mint.signer_bump, Some(derived().1));
}

#[test]
fn verify_and_mint_refuses_foreign_license() {
    let ctx = mint_ctx([7; 32]);
    let r = verify_and_mint(&ctx, &AcceptAll, vec![1, 2, 3], 250);
    assert_eq!(r.unwrap_err(), FociiVerifierError::InvalidNodeLicense);
    let r = verify_and_mint(&ctx, &AcceptAll, Vec::new(), 1);
    assert_eq!(r.unwrap_err(), FociiVerifierError::InvalidNodeLicense);
}

#[test]
fn verify_and_mint_has_no_replay_guard() {
    let ctx = mint_ctx(OWNER);
    let data = vec![9u8, 9, 9];
    let first = verify_and_mint(&ctx, &AcceptAll, data.clone(), 40).unwrap();
    let second = verify_and_mint(&ctx, &AcceptAll, data, 40).unwrap();
    assert_eq!(first.amount, 40);
    assert_eq!(second.amount, 40);
}

#[test]
fn verify_and_mint_refuses_wrong_bump() {
    let mut ctx = mint_ctx(OWNER);
    ctx.verifier.bump = ctx.verifier.bump.wrapping_sub(1);
    let r = verify_and_mint(&ctx, &AcceptAll, vec![1], 5);
    assert_eq!(r.unwrap_err(), FociiVerifierError::InvalidVerifierAddress);
}

#[test]
fn verify_and_mint_refuses_unbound_mints() {
    let mut ctx = mint_ctx(OWNER);
    ctx.reward_token_mint = Address::new([13; 32]);
    let r = verify_and_mint(&ctx, &AcceptAll, vec![1], 5);
    assert_eq!(r.unwrap_err(), FociiVerifierError::RewardMintMismatch);
    let mut ctx = mint_ctx(OWNER);
    ctx.node_license_mint = Address::new([13; 32]);
    let r = verify_and_mint(&ctx, &AcceptAll, vec![1], 5);
    assert_eq!(r.unwrap_err(), FociiVerifierError::LicenseMintMismatch);
}

#[test]
fn rejected_data_fails_before_license_check() {
    let ctx = mint_ctx([7; 32]);
    let r = mint_if_accepted(&ctx, false, 10);
    assert_eq!(r.unwrap_err(), FociiVerifierError::VerificationFailed);
    let r = mint_if_accepted(&ctx, true, 10);
    assert_eq!(r.unwrap_err(), FociiVerifierError::InvalidNodeLicense);
    let ctx = mint_ctx(OWNER);
    assert_eq!(mint_if_accepted(&ctx, true, 10).unwrap().amount, 10);
}
