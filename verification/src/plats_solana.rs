use vstd::prelude::*;

use crate::context::Context;
use crate::cpi::TokenTransfer;
use crate::errors::ErrorCode;
use crate::instructions::deposit_to_the_vault::{self, deposit_spec, deposit_transfer, DepositToTheVault};
use crate::instructions::initialize_taskvault::{self, initialize_transfer, initialized_vault, InitializeTaskVault};
use crate::instructions::withdraw_from_the_vault::{self, withdraw_spec, withdraw_transfer, WithdrawFromTheVault};

verus! {

/// The instruction that opens a task's vault. The bump given with the instruction is
/// not used: the treasurer's bump is the one found when the accounts were checked.
pub fn initialize_taskvault(
    ctx: &mut Context<InitializeTaskVault>,
    bump: u8,
    prize: u64,
    amount: u64,
) -> (r: Result<TokenTransfer, ErrorCode>)
    ensures
        *final(ctx) == (Context {
            accounts: old(ctx).accounts.with_vault_data(final(ctx).accounts.task_vault.data),
            ..*old(ctx)
        }),
        final(ctx).accounts.task_vault.data@ == initialized_vault(old(ctx).accounts, prize, amount),
        r matches Ok(t) && t@ == initialize_transfer(*old(ctx), amount),
{
    initialize_taskvault::exec(ctx, prize, amount)
}

/// The instruction that deposits into a vault.
pub fn deposit_to_the_vault(ctx: &mut Context<DepositToTheVault>, amount: u64) -> (r: Result<TokenTransfer, ErrorCode>)
    requires
        old(ctx).accounts.task_vault.data.token_deposit + amount <= u64::MAX,
    ensures
        *final(ctx) == (Context {
            accounts: old(ctx).accounts.with_vault_data(final(ctx).accounts.task_vault.data),
            ..*old(ctx)
        }),
        final(ctx).accounts.task_vault.data@ == deposit_spec(old(ctx).accounts.task_vault.data@, amount),
        r matches Ok(t) && t@ == deposit_transfer(*old(ctx)),
{
    deposit_to_the_vault::exec(ctx, amount)
}

/// The instruction that withdraws from a vault.
pub fn withdraw_from_the_vault(ctx: &mut Context<WithdrawFromTheVault>, amount: u64) -> (r: Result<TokenTransfer, ErrorCode>)
    ensures
        *final(ctx) == (Context {
            accounts: old(ctx).accounts.with_vault_data(final(ctx).accounts.task_vault.data),
            ..*old(ctx)
        }),
        match withdraw_spec(old(ctx).accounts.task_vault.data@, amount) {
            Ok(v) => {
                &&& r matches Ok(t) && t@ == withdraw_transfer(*old(ctx), amount)
                &&& final(ctx).accounts.task_vault.data@ == v
            },
            Err(e) => {
                &&& r == Err::<TokenTransfer, ErrorCode>(e)
                &&& *final(ctx) == *old(ctx)
            },
        },
{
    withdraw_from_the_vault::exec(ctx, amount)
}

} // verus!
