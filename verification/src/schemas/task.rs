use vstd::prelude::*;

use crate::pubkey::Pubkey;

verus! {

/// A task: who created it, which token it pays in, and its number.
#[derive(Clone, Copy, Debug, PartialEq, Eq)]
pub struct Task {
    pub authority: Pubkey,
    pub mint_of_token_being_sent: Pubkey,
    pub task_id: u64,
}

impl Task {
    /// Bytes of account space a task takes: the account discriminator, two addresses and the number.
    pub const SIZE: usize = 8 + 32 + 32 + 8;
}

} // verus!
