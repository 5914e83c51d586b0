//! Token accounts as the programs read them, and the mints they order.
use vstd::prelude::*;
use crate::address::Address;

verus! {

/// The fields of a token account that the programs check.
#[derive(Clone, Copy, Debug)]
pub struct TokenAccount {
    /// Where the account lives.
    pub address: Address,
    /// The token class that it holds.
    pub mint: Address,
    /// The wallet that owns it.
    pub owner: Address,
}

/// A mint that the token program is to perform: `amount` units of `mint`
/// into the account `to`, authorised by `authority`.
///
/// `signer_bump` is `None` where `authority` signs the transaction itself, and
/// `Some(b)` where it is a program derived address that the program signs for
/// with its label seed and the bump `b`.
#[derive(Clone, Copy, Debug)]
pub struct MintTo {
    pub mint: Address,
    pub to: Address,
    pub authority: Address,
    pub amount: u64,
    pub signer_bump: Option<u8>,
}

} // verus!
