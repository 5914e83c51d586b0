//! The verifier program: a signing identity derived from a fixed label, with
//! no private key, that mints rewards for submitted proof data.
use vstd::prelude::*;
use crate::address::Address;
use crate::derivation::{bump_search, derive_address, find_program_address, program_address, seed_views, with_bump};
use crate::token::{MintTo, TokenAccount};

verus! {

/// The label seed of the verifier's address: the bytes of `verifier`.
pub open spec fn verifier_label() -> Seq<u8> {
    seq![118u8, 101u8, 114u8, 105u8, 102u8, 105u8, 101u8, 114u8]
}

fn verifier_seeds() -> (r: Vec<Vec<u8>>)
    ensures
        seed_views(r@) == seq![verifier_label()],
{
    let label: Vec<u8> = vec![118u8, 101u8, 114u8, 105u8, 102u8, 105u8, 101u8, 114u8];
    let mut seeds: Vec<Vec<u8>> = Vec::new();
    seeds.push(label);
    assert(label@ =~= verifier_label());
    assert(seed_views(seeds@) =~= seq![verifier_label()]);
    seeds
}

/// The verifier's identity record.
#[derive(Clone, Copy, Debug)]
pub struct Verifier {
    pub authority: Address,
    pub reward_token_mint: Address,
    pub node_license_mint: Address,
    /// The bump under which the label derives the record's address.
    pub bump: u8,
}

#[derive(Clone, Copy, Debug, PartialEq, Eq, Structural)]
pub enum FociiVerifierError {
    /// The proof check refused the submitted data.
    VerificationFailed,
    /// The license account does not belong to the signing node owner.
    InvalidNodeLicense,
    /// No bump lets the label derive an address.
    NoViableBump,
    /// The verifier account is not at the address derived from the label.
    InvalidVerifierAddress,
    /// The reward mint is not the one the verifier binds.
    RewardMintMismatch,
    /// The license mint is not the one the verifier binds.
    LicenseMintMismatch,
}

/// A check of submitted proof data, supplied by the deployment.
pub trait ProofCheck {
    /// Whether the check accepts `data`.
    spec fn accepts(&self, data: Seq<u8>) -> bool;

    fn check(&self, data: &Vec<u8>) -> (r: bool)
        ensures
            r == self.accepts(data@),
    ;
}

/// The placeholder check, which accepts all data.
#[derive(Clone, Copy, Debug)]
pub struct AcceptAll;

impl ProofCheck for AcceptAll {
    open spec fn accepts(&self, data: Seq<u8>) -> bool {
        true
    }

    fn check(&self, data: &Vec<u8>) -> (r: bool) {
        true
    }
}

/// What `initialize` reads.
#[derive(Clone, Copy, Debug)]
pub struct Initialize {
    /// The account that is to hold the identity record.
    pub verifier: Address,
    pub reward_token_mint: Address,
    pub node_license_mint: Address,
    pub authority: Address,
    /// The id of this program, under which the label derives.
    pub program_id: Address,
}

/// What `verify_and_mint` reads.
#[derive(Clone, Copy, Debug)]
pub struct VerifyAndMint {
    pub verifier_address: Address,
    pub verifier: Verifier,
    pub reward_token_mint: Address,
    pub node_license_mint: Address,
    /// The license-holding account of the node.
    pub node_license: TokenAccount,
    /// The participant who signs.
    pub node_owner: Address,
    pub rewards_account: Address,
    pub program_id: Address,
}

/// Outcome of `initialize`: the record, bound to the two mints, with the
/// canonical bump of the label, where the verifier account is at the address
/// that bump derives.
pub open spec fn initialize_outcome(ctx: Initialize) -> Result<Verifier, FociiVerifierError> {
    match bump_search(seq![verifier_label()], ctx.program_id@) {
        None => Err(FociiVerifierError::NoViableBump),
        Some((a, b)) => if a != ctx.verifier@ {
            Err(FociiVerifierError::InvalidVerifierAddress)
        } else {
            Ok(
                Verifier {
                    authority: ctx.authority,
                    reward_token_mint: ctx.reward_token_mint,
                    node_license_mint: ctx.node_license_mint,
                    bump: b,
                },
            )
        },
    }
}

/// Creates the verifier's identity record at the address derived from the
/// label under the program id.
pub fn initialize(ctx: &Initialize) -> (r: Result<Verifier, FociiVerifierError>)
    ensures
        r == initialize_outcome(*ctx),
{
    let seeds = verifier_seeds();
    match find_program_address(&seeds, &ctx.program_id) {
        None => Err(FociiVerifierError::NoViableBump),
        Some((a, b)) => {
            if !a.same(&ctx.verifier) {
                Err(FociiVerifierError::InvalidVerifierAddress)
            } else {
                Ok(
                    Verifier {
                        authority: ctx.authority,
                        reward_token_mint: ctx.reward_token_mint,
                        node_license_mint: ctx.node_license_mint,
                        bump: b,
                    },
                )
            }
        },
    }
}

/// The label and the stored bump derive the verifier account's address.
pub open spec fn signs_as_verifier(ctx: VerifyAndMint) -> bool {
    program_address(with_bump(seq![verifier_label()], ctx.verifier.bump), ctx.program_id@)
        == Some(ctx.verifier_address@)
}

/// Why a verified mint is refused, checked in this order, or `None`;
/// `accepted` is the proof check's answer on the submitted data.
pub open spec fn verify_error(ctx: VerifyAndMint, accepted: bool) -> Option<FociiVerifierError> {
    if !signs_as_verifier(ctx) {
        Some(FociiVerifierError::InvalidVerifierAddress)
    } else if ctx.verifier.reward_token_mint@ != ctx.reward_token_mint@ {
        Some(FociiVerifierError::RewardMintMismatch)
    } else if ctx.verifier.node_license_mint@ != ctx.node_license_mint@ {
        Some(FociiVerifierError::LicenseMintMismatch)
    } else if !accepted {
        Some(FociiVerifierError::VerificationFailed)
    } else if ctx.node_license.owner@ != ctx.node_owner@ {
        Some(FociiVerifierError::InvalidNodeLicense)
    } else {
        None
    }
}

/// The mint of a verified submission: `amount` reward units, signed by the
/// verifier's derived address.
pub open spec fn verifier_mint_of(ctx: VerifyAndMint, amount: u64) -> MintTo {
    MintTo {
        mint: ctx.reward_token_mint,
        to: ctx.rewards_account,
        authority: ctx.verifier_address,
        amount: amount,
        signer_bump: Some(ctx.verifier.bump),
    }
}

/// Decides a submission whose proof data the check answered with
/// `accepted`: returns the mint of `amount` reward units that the verifier
/// signs for, or why it is refused.
pub fn mint_if_accepted(ctx: &VerifyAndMint, accepted: bool, amount: u64) -> (r: Result<
    MintTo,
    FociiVerifierError,
>)
    ensures
        match r {
            Ok(mint) => {
                &&& verify_error(*ctx, accepted).is_none()
                &&& mint == verifier_mint_of(*ctx, amount)
            },
            Err(e) => verify_error(*ctx, accepted) == Some(e),
        },
{
    let seeds = verifier_seeds();
    match derive_address(&seeds, ctx.verifier.bump, &ctx.program_id) {
        Some(a) => {
            if !a.same(&ctx.verifier_address) {
                return Err(FociiVerifierError::InvalidVerifierAddress);
            }
        },
        None => {
            return Err(FociiVerifierError::InvalidVerifierAddress);
        },
    }
    if !ctx.verifier.reward_token_mint.same(&ctx.reward_token_mint) {
        return Err(FociiVerifierError::RewardMintMismatch);
    }
    if !ctx.verifier.node_license_mint.same(&ctx.node_license_mint) {
        return Err(FociiVerifierError::LicenseMintMismatch);
    }
    if !accepted {
        return Err(FociiVerifierError::VerificationFailed);
    }
    if !ctx.node_license.owner.same(&ctx.node_owner) {
        return Err(FociiVerifierError::InvalidNodeLicense);
    }
    Ok(
        MintTo {
            mint: ctx.reward_token_mint,
            to: ctx.rewards_account,
            authority: ctx.verifier_address,
            amount,
            signer_bump: Some(ctx.verifier.bump),
        },
    )
}

/// Checks submitted proof data with `checker` and the node's license, and
/// returns the mint of `amount` reward units that the verifier signs for.
/// No record changes.
pub fn verify_and_mint<P: ProofCheck>(
    ctx: &VerifyAndMint,
    checker: &P,
    verification_data: Vec<u8>,
    amount: u64,
) -> (r: Result<MintTo, FociiVerifierError>)
    ensures
        match r {
            Ok(mint) => {
                &&& verify_error(*ctx, checker.accepts(verification_data@)).is_none()
                &&& mint == verifier_mint_of(*ctx, amount)
            },
            Err(e) => verify_error(*ctx, checker.accepts(verification_data@)) == Some(e),
        },
{
    let accepted = checker.check(&verification_data);
    mint_if_accepted(ctx, accepted, amount)
}

/// A license account that another wallet owns never yields a mint, whatever
/// the check says of the data; where the account bindings hold and the check
/// accepts, the refusal is `InvalidNodeLicense`.
pub proof fn lemma_foreign_license_refused(ctx: VerifyAndMint, accepted: bool)
    requires
        ctx.node_license.owner@ != ctx.node_owner@,
    ensures
        verify_error(ctx, accepted).is_some(),
        signs_as_verifier(ctx) && ctx.verifier.reward_token_mint@ == ctx.reward_token_mint@
            && ctx.verifier.node_license_mint@ == ctx.node_license_mint@ && accepted
            ==> verify_error(ctx, accepted) == Some(FociiVerifierError::InvalidNodeLicense),
{
}

/// With the bindings in place, the license owned by the signer and the data
/// accepted, the submission mints exactly `amount` reward units into the
/// rewards account, signed by the address that the label and the stored bump
/// derive under the program id.
pub proof fn lemma_accepted_submission_mints(ctx: VerifyAndMint, amount: u64)
    requires
        signs_as_verifier(ctx),
        ctx.verifier.reward_token_mint@ == ctx.reward_token_mint@,
        ctx.verifier.node_license_mint@ == ctx.node_license_mint@,
        ctx.node_license.owner@ == ctx.node_owner@,
    ensures
        verify_error(ctx, true).is_none(),
        verifier_mint_of(ctx, amount).amount == amount,
        verifier_mint_of(ctx, amount).mint == ctx.reward_token_mint,
        verifier_mint_of(ctx, amount).signer_bump == Some(ctx.verifier.bump),
        program_address(
            with_bump(seq![verifier_label()], verifier_mint_of(ctx, amount).signer_bump.unwrap()),
            ctx.program_id@,
        ) == Some(verifier_mint_of(ctx, amount).authority@),
{
}

/// Submissions are not de-duplicated: since a submission changes no record,
/// submitting the same data again on the same accounts meets the same checks,
/// and where the first was minted so is the second, with the same mint.
pub proof fn lemma_resubmission_mints_again(
    first: VerifyAndMint,
    second: VerifyAndMint,
    accepted: bool,
    amount: u64,
)
    requires
        second == first,
        verify_error(first, accepted).is_none(),
    ensures
        verify_error(second, accepted).is_none(),
        verifier_mint_of(second, amount) == verifier_mint_of(first, amount),
{
}

} // verus!
