//! The issuance program: one configuration record that owns both token
//! classes, license creation, and reward distribution gated on a node's
//! verification count.
use vstd::prelude::*;
use crate::address::Address;
use crate::derivation::{associated_address, associated_token_address};
use crate::token::{MintTo, TokenAccount};

verus! {

/// Longest node identifier, in bytes.
pub const STRING_LENGTH: usize = 32;

/// The configuration record.
#[derive(Clone, Copy, Debug)]
pub struct ProgramState {
    pub authority: Address,
    pub reward_token_mint: Address,
    pub node_license_mint: Address,
    pub total_nodes: u64,
}

/// The record of one issued license.
#[derive(Clone, Debug)]
pub struct Node {
    pub owner: Address,
    pub node_id: String,
    pub rewards_earned: u64,
    pub verification_count: u64,
    pub license_token: Address,
}

#[derive(Clone, Copy, Debug, PartialEq, Eq, Structural)]
pub enum BaaiError {
    /// Rewards were asked for a node with no verification.
    NoVerifications,
    /// A counter would pass `u64::MAX`.
    ArithmeticOverflow,
    /// The node identifier is longer than `STRING_LENGTH` bytes.
    NodeIdTooLong,
    /// The license mint is not the one the configuration binds.
    LicenseMintMismatch,
    /// The reward mint is not the one the configuration binds.
    RewardMintMismatch,
    /// The holding account is not the owner's associated account for licenses.
    InvalidHoldingAccount,
    /// The rewards account does not hold rewards or is not the node owner's.
    InvalidRewardsAccount,
}

/// What `initialize` reads.
#[derive(Clone, Copy, Debug)]
pub struct Initialize {
    pub authority: Address,
    pub reward_token_mint: Address,
    pub node_license_mint: Address,
}

/// What `create_node_license` reads; `state` is written.
#[derive(Clone, Copy, Debug)]
pub struct CreateNodeLicense {
    /// The participant who signs and receives the license.
    pub owner: Address,
    pub node_license_mint: Address,
    /// The account that receives the license unit.
    pub node_token_account: Address,
    /// Where the configuration record lives; it is the mint authority.
    pub state_address: Address,
    pub state: ProgramState,
}

/// What `distribute_rewards` reads; `node` is written.
#[derive(Clone, Debug)]
pub struct DistributeRewards {
    pub node: Node,
    pub reward_token_mint: Address,
    pub rewards_account: TokenAccount,
    pub state_address: Address,
    pub state: ProgramState,
}

pub open spec fn initialized(ctx: Initialize) -> ProgramState {
    ProgramState {
        authority: ctx.authority,
        reward_token_mint: ctx.reward_token_mint,
        node_license_mint: ctx.node_license_mint,
        total_nodes: 0,
    }
}

/// Creates the configuration record, with no node yet.
pub fn initialize(ctx: &Initialize) -> (state: ProgramState)
    ensures
        state == initialized(*ctx),
{
    ProgramState {
        authority: ctx.authority,
        reward_token_mint: ctx.reward_token_mint,
        node_license_mint: ctx.node_license_mint,
        total_nodes: 0,
    }
}

/// Length in bytes of the UTF-8 encoding of `s`, as `str::len` reports it.
pub open spec fn byte_len(s: Seq<char>) -> nat {
    (vstd::utf8::encode_utf8(s).len() as usize) as nat
}

/// Why a license creation is refused, checked in this order, or `None`.
pub open spec fn create_error(ctx: CreateNodeLicense, id_len: nat) -> Option<BaaiError> {
    if ctx.node_license_mint@ != ctx.state.node_license_mint@ {
        Some(BaaiError::LicenseMintMismatch)
    } else if associated_address(ctx.owner@, ctx.node_license_mint@) != Some(ctx.node_token_account@) {
        Some(BaaiError::InvalidHoldingAccount)
    } else if id_len > STRING_LENGTH {
        Some(BaaiError::NodeIdTooLong)
    } else if ctx.state.total_nodes == u64::MAX {
        Some(BaaiError::ArithmeticOverflow)
    } else {
        None
    }
}

/// The accounts after a successful license creation.
pub open spec fn after_create(ctx: CreateNodeLicense) -> CreateNodeLicense {
    CreateNodeLicense {
        state: ProgramState { total_nodes: (ctx.state.total_nodes + 1) as u64, ..ctx.state },
        ..ctx
    }
}

/// The mint of a license creation: one license unit to the holding account.
pub open spec fn license_mint_of(ctx: CreateNodeLicense) -> MintTo {
    MintTo {
        mint: ctx.node_license_mint,
        to: ctx.node_token_account,
        authority: ctx.state_address,
        amount: 1,
        signer_bump: None,
    }
}

/// Issues a license to `ctx.owner`: returns the new node record and the mint
/// of one license unit, and counts the node in the configuration. On an
/// error nothing changes.
pub fn create_node_license(ctx: &mut CreateNodeLicense, node_id: String) -> (r: Result<
    (Node, MintTo),
    BaaiError,
>)
    ensures
        match r {
            Ok((node, mint)) => {
                &&& create_error(*old(ctx), byte_len(node_id@)).is_none()
                &&& *final(ctx) == after_create(*old(ctx))
                &&& mint == license_mint_of(*old(ctx))
                &&& node.owner == old(ctx).owner
                &&& node.node_id@ == node_id@
                &&& node.rewards_earned == 0
                &&& node.verification_count == 0
                &&& node.license_token == old(ctx).node_token_account
            },
            Err(e) => {
                &&& create_error(*old(ctx), byte_len(node_id@)) == Some(e)
                &&& *final(ctx) == *old(ctx)
            },
        },
{
    if !ctx.node_license_mint.same(&ctx.state.node_license_mint) {
        return Err(BaaiError::LicenseMintMismatch);
    }
    match associated_token_address(&ctx.owner, &ctx.node_license_mint) {
        Some(a) => {
            if !a.same(&ctx.node_token_account) {
                return Err(BaaiError::InvalidHoldingAccount);
            }
        },
        None => {
            return Err(BaaiError::InvalidHoldingAccount);
        },
    }
    let id_len = node_id.as_str().len();
    if id_len > STRING_LENGTH {
        return Err(BaaiError::NodeIdTooLong);
    }
    let total = match ctx.state.total_nodes.checked_add(1) {
        Some(t) => t,
        None => {
            return Err(BaaiError::ArithmeticOverflow);
        },
    };
    let mint = MintTo {
        mint: ctx.node_license_mint,
        to: ctx.node_token_account,
        authority: ctx.state_address,
        amount: 1,
        signer_bump: None,
    };
    let node = Node {
        owner: ctx.owner,
        node_id,
        rewards_earned: 0,
        verification_count: 0,
        license_token: ctx.node_token_account,
    };
    ctx.state.total_nodes = total;
    Ok((node, mint))
}

/// Why a reward distribution is refused, checked in this order, or `None`.
pub open spec fn distribute_error(ctx: DistributeRewards, amount: u64) -> Option<BaaiError> {
    if ctx.reward_token_mint@ != ctx.state.reward_token_mint@ {
        Some(BaaiError::RewardMintMismatch)
    } else if ctx.rewards_account.mint@ != ctx.reward_token_mint@
        || ctx.rewards_account.owner@ != ctx.node.owner@ {
        Some(BaaiError::InvalidRewardsAccount)
    } else if ctx.node.verification_count == 0 {
        Some(BaaiError::NoVerifications)
    } else if ctx.node.rewards_earned + amount > u64::MAX {
        Some(BaaiError::ArithmeticOverflow)
    } else {
        None
    }
}

/// The accounts after a successful distribution of `amount`.
pub open spec fn after_distribute(ctx: DistributeRewards, amount: u64) -> DistributeRewards {
    DistributeRewards {
        node: Node { rewards_earned: (ctx.node.rewards_earned + amount) as u64, ..ctx.node },
        ..ctx
    }
}

/// The mint of a distribution: `amount` reward units to the rewards account.
pub open spec fn reward_mint_of(ctx: DistributeRewards, amount: u64) -> MintTo {
    MintTo {
        mint: ctx.reward_token_mint,
        to: ctx.rewards_account.address,
        authority: ctx.state_address,
        amount: amount,
        signer_bump: None,
    }
}

/// Pays `amount` reward units to a verified node: returns the mint and adds
/// `amount` to the node's earnings. On an error nothing changes.
pub fn distribute_rewards(ctx: &mut DistributeRewards, amount: u64) -> (r: Result<MintTo, BaaiError>)
    ensures
        match r {
            Ok(mint) => {
                &&& distribute_error(*old(ctx), amount).is_none()
                &&& *final(ctx) == after_distribute(*old(ctx), amount)
                &&& mint == reward_mint_of(*old(ctx), amount)
            },
            Err(e) => {
                &&& distribute_error(*old(ctx), amount) == Some(e)
                &&& *final(ctx) == *old(ctx)
            },
        },
{
    if !ctx.reward_token_mint.same(&ctx.state.reward_token_mint) {
        return Err(BaaiError::RewardMintMismatch);
    }
    if !ctx.rewards_account.mint.same(&ctx.reward_token_mint)
        || !ctx.rewards_account.owner.same(&ctx.node.owner) {
        return Err(BaaiError::InvalidRewardsAccount);
    }
    if ctx.node.verification_count == 0 {
        return Err(BaaiError::NoVerifications);
    }
    let earned = match ctx.node.rewards_earned.checked_add(amount) {
        Some(e) => e,
        None => {
            return Err(BaaiError::ArithmeticOverflow);
        },
    };
    let mint = MintTo {
        mint: ctx.reward_token_mint,
        to: ctx.rewards_account.address,
        authority: ctx.state_address,
        amount,
        signer_bump: None,
    };
    ctx.node.rewards_earned = earned;
    Ok(mint)
}

/// Successive license creations, each on the configuration that the one
/// before left, starting from a fresh configuration: `total_nodes` ends equal
/// to the number of creations, and each creation mints one license unit into
/// the owner's associated account.
///
/// `calls[i]` holds the accounts of creation `i`; `calls` has one more entry,
/// whose configuration is the one left at the end; `id_lens[i]` is the byte
/// length of the node identifier of creation `i`.
pub proof fn lemma_total_nodes_counts_licenses(
    init: Initialize,
    calls: Seq<CreateNodeLicense>,
    id_lens: Seq<nat>,
)
    requires
        calls.len() >= 1,
        id_lens.len() == calls.len() - 1,
        calls[0].state == initialized(init),
        forall|i: int|
            0 <= i < calls.len() - 1 ==> {
                &&& #[trigger] create_error(calls[i], id_lens[i]).is_none()
                &&& calls[i + 1].state == after_create(calls[i]).state
            },
    ensures
        calls.last().state.total_nodes == calls.len() - 1,
        forall|i: int|
            0 <= i < calls.len() - 1 ==> {
                let m = #[trigger] license_mint_of(calls[i]);
                &&& m.amount == 1
                &&& m.mint@ == calls[i].state.node_license_mint@
                &&& associated_address(calls[i].owner@, m.mint@) == Some(m.to@)
            },
    decreases calls.len(),
{
    if calls.len() > 1 {
        let n = (calls.len() - 1) as int;
        lemma_total_nodes_counts_licenses(init, calls.subrange(0, n), id_lens.subrange(0, n - 1));
        assert(calls.subrange(0, n).last() == calls[n - 1]);
        assert(create_error(calls[n - 1], id_lens[n - 1]).is_none());
    }
    assert forall|i: int| 0 <= i < calls.len() - 1 implies {
        let m = #[trigger] license_mint_of(calls[i]);
        &&& m.amount == 1
        &&& m.mint@ == calls[i].state.node_license_mint@
        &&& associated_address(calls[i].owner@, m.mint@) == Some(m.to@)
    } by {
        assert(create_error(calls[i], id_lens[i]).is_none());
    }
}

/// A configuration whose node counter is full refuses every license creation
/// that passes the account checks with `ArithmeticOverflow`.
pub proof fn lemma_full_counter_refuses(ctx: CreateNodeLicense, id_len: nat)
    requires
        ctx.state.total_nodes == u64::MAX,
        ctx.node_license_mint@ == ctx.state.node_license_mint@,
        associated_address(ctx.owner@, ctx.node_license_mint@) == Some(ctx.node_token_account@),
        id_len <= STRING_LENGTH,
    ensures
        create_error(ctx, id_len) == Some(BaaiError::ArithmeticOverflow),
{
}

/// A node with no verification gets no reward: a distribution that passes the
/// account checks is refused with `NoVerifications`.
pub proof fn lemma_unverified_node_refused(ctx: DistributeRewards, amount: u64)
    requires
        ctx.node.verification_count == 0,
        ctx.reward_token_mint@ == ctx.state.reward_token_mint@,
        ctx.rewards_account.mint@ == ctx.reward_token_mint@,
        ctx.rewards_account.owner@ == ctx.node.owner@,
    ensures
        distribute_error(ctx, amount) == Some(BaaiError::NoVerifications),
{
}

/// Distributions accumulate: after two successful distributions of `a1` and
/// then `a2` to the same node, its earnings have grown by `a1 + a2`, and each
/// minted exactly its amount.
pub proof fn lemma_rewards_accumulate(ctx: DistributeRewards, a1: u64, a2: u64)
    requires
        distribute_error(ctx, a1).is_none(),
        distribute_error(after_distribute(ctx, a1), a2).is_none(),
    ensures
        after_distribute(after_distribute(ctx, a1), a2).node.rewards_earned
            == ctx.node.rewards_earned + a1 + a2,
        reward_mint_of(ctx, a1).amount == a1,
        reward_mint_of(after_distribute(ctx, a1), a2).amount == a2,
{
}

} // verus!
