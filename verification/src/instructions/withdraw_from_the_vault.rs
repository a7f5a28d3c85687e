use vstd::prelude::*;

use crate::context::{Account, Context};
use crate::cpi::{treasurer_seeds, treasurer_seeds_spec, TokenTransfer, TransferModel};
use crate::errors::ErrorCode;
use crate::pubkey::Pubkey;
use crate::schemas::task_vault::{TaskVault, VaultModel};

verus! {

/// The accounts of a withdrawal: the vault's authority takes tokens out of the vault.
#[derive(Debug, PartialEq, Eq)]
pub struct WithdrawFromTheVault {
    /// The vault's authority, who signs and receives.
    pub authority: Pubkey,
    pub task_vault: Account<TaskVault>,
    /// The address that owns the vault's token account.
    pub treasurer: Pubkey,
    pub task_vault_token_account: Pubkey,
    pub authority_token_account: Pubkey,
    pub mint_of_token_being_sent: Pubkey,
    pub system_program: Pubkey,
    pub token_program: Pubkey,
}

impl WithdrawFromTheVault {
    /// The same accounts, with other data in the vault.
    pub open spec fn with_vault_data(self, data: TaskVault) -> WithdrawFromTheVault {
        WithdrawFromTheVault { task_vault: Account { data, ..self.task_vault }, ..self }
    }
}

/// What a withdrawal of `amount` does to a vault: it fails when the vault records fewer
/// tokens, and otherwise takes `amount` off the record.
pub open spec fn withdraw_spec(v: VaultModel, amount: u64) -> Result<VaultModel, ErrorCode> {
    if v.token_deposit < amount {
        Err(ErrorCode::NotEnoughTokensFromTheVault)
    } else {
        Ok(v.with_deposit((v.token_deposit - amount) as u64))
    }
}

/// The transfer that a withdrawal asks for: `amount` tokens from the vault's token account
/// to the authority's, signed by the program as the treasurer.
pub open spec fn withdraw_transfer(ctx: Context<WithdrawFromTheVault>, amount: u64) -> TransferModel {
    TransferModel {
        token_program: ctx.accounts.token_program,
        from: ctx.accounts.task_vault_token_account,
        to: ctx.accounts.authority_token_account,
        authority: ctx.accounts.treasurer,
        amount,
        signer_seeds: treasurer_seeds_spec(ctx.accounts.task_vault.key, ctx.bumps.treasurer),
    }
}

/// Takes `amount` tokens out of the vault for its authority.
/// On success the vault's record is lowered and the transfer to make is returned;
/// on failure nothing changes.
pub fn exec(ctx: &mut Context<WithdrawFromTheVault>, amount: u64) -> (r: Result<TokenTransfer, ErrorCode>)
    ensures
        *final(ctx) == (Context {
            accounts: old(ctx).accounts.with_vault_data(final(ctx).accounts.task_vault.data),
            ..*old(ctx)
        }),
        match withdraw_spec(old(ctx).accounts.task_vault.data@, amount) {
            Ok(v) => {
                &&& r matches Ok(t) && t@ == withdraw_transfer(*old(ctx), amount)
                &&& final(ctx).accounts.task_vault.data@ == v
            },
            Err(e) => {
                &&& r == Err::<TokenTransfer, ErrorCode>(e)
                &&& *final(ctx) == *old(ctx)
            },
        },
{
    if ctx.accounts.task_vault.data.token_deposit < amount {
        return Err(ErrorCode::NotEnoughTokensFromTheVault);
    }
    ctx.accounts.task_vault.data.token_deposit = ctx.accounts.task_vault.data.token_deposit - amount;
    let signer_seeds = treasurer_seeds(&ctx.accounts.task_vault.key, ctx.bumps.treasurer);
    Ok(TokenTransfer {
        token_program: ctx.accounts.token_program,
        from: ctx.accounts.task_vault_token_account,
        to: ctx.accounts.authority_token_account,
        authority: ctx.accounts.treasurer,
        amount,
        signer_seeds,
    })
}

} // verus!
