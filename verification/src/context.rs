use vstd::prelude::*;

use crate::pubkey::Pubkey;

verus! {

/// An account that the program reads or writes: its address and its data.
#[derive(Debug, PartialEq, Eq)]
pub struct Account<T> {
    pub key: Pubkey,
    pub data: T,
}

/// The bump seeds that were found while the accounts were checked.
#[derive(Clone, Copy, Debug, PartialEq, Eq)]
pub struct Bumps {
    /// The bump of the treasurer, the address that signs for the vault's token account.
    pub treasurer: u8,
}

/// What an instruction runs on: the program's address, its accounts and the bumps found.
#[derive(Debug, PartialEq, Eq)]
pub struct Context<T> {
    pub program_id: Pubkey,
    pub accounts: T,
    pub bumps: Bumps,
}

} // verus!
