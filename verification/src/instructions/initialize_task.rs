use vstd::prelude::*;

use crate::context::{Account, Context};
use crate::errors::ErrorCode;
use crate::pubkey::Pubkey;
use crate::schemas::task::Task;

verus! {

/// The accounts that open a task.
#[derive(Debug, PartialEq, Eq)]
pub struct InitializeTask {
    /// The task's creator, who signs and pays for the account.
    pub authority: Pubkey,
    /// The task, newly made.
    pub task: Account<Task>,
    /// The address derived from the task that will sign for it.
    pub treasurer: Pubkey,
    pub mint: Pubkey,
}

/// Opens a task. Nothing is written into the new account beyond what making it did,
/// and the prize and amount are not used.
pub fn exec(ctx: &Context<InitializeTask>, prize: u64, amount: u64) -> (r: Result<(), ErrorCode>)
    ensures
        r == Ok::<(), ErrorCode>(()),
{
    Ok(())
}

} // verus!
