//! Node licenses and verified rewards for a token-issuing program.
//!
//! The library decides every instruction of the two programs: which account
//! bindings hold, which counters move, and which token mint the hosting
//! runtime has to perform. Performing the mint is left to the caller, who
//! receives it as a [`token::MintTo`] value.

pub mod address;
pub mod derivation;
pub mod token;
pub mod issuance;
pub mod verification;
