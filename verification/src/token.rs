//! What goes to the token program: the instructions by which tokens leave
//! the custody of a fanout.
use vstd::prelude::*;
use crate::pubkey::Pubkey;

verus! {

/// Moving `amount` tokens from one token account to another, under the
/// authority that owns the first.
#[derive(Clone, Copy, Debug, PartialEq, Eq)]
pub struct Transfer {
    pub from: Pubkey,
    pub to: Pubkey,
    pub authority: Pubkey,
    pub amount: u64,
}

/// Closing a token account, under the authority that owns it: what it holds
/// in rent goes to `destination`.
#[derive(Clone, Copy, Debug, PartialEq, Eq)]
pub struct CloseAccount {
    pub account: Pubkey,
    pub destination: Pubkey,
    pub authority: Pubkey,
}

} // verus!
