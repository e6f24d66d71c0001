//! Accounts as the instructions see them: a record together with the address
//! at which it is kept.
use vstd::prelude::*;
use crate::pubkey::Pubkey;

verus! {

/// A record and the address of the account that holds it.
#[derive(Clone, Copy, Debug, PartialEq, Eq, Default)]
pub struct Account<T> {
    pub key: Pubkey,
    pub data: T,
}

/// What the instructions read of a token account: how many tokens it holds.
#[derive(Clone, Copy, Debug, PartialEq, Eq, Default)]
pub struct TokenAccount {
    pub amount: u64,
}

} // verus!
