use vstd::prelude::*;

use crate::context::{Account, Context};
use crate::cpi::{TokenTransfer, TransferModel};
use crate::errors::ErrorCode;
use crate::pubkey::Pubkey;
use crate::schemas::task_vault::{TaskVault, VaultModel};

pub use crate::instructions::withdraw_from_the_vault::WithdrawFromTheVault;

verus! {

/// The accounts of a deposit: the depositor puts tokens into a vault.
#[derive(Debug, PartialEq, Eq)]
pub struct DepositToTheVault {
    /// The depositor, who signs and pays.
    pub authority: Pubkey,
    pub task_vault: Account<TaskVault>,
    /// The address that owns the vault's token account.
    pub treasurer: Pubkey,
    pub mint_of_token_being_sent: Pubkey,
    pub task_vault_token_account: Pubkey,
    pub authority_token_account: Pubkey,
    pub system_program: Pubkey,
    pub token_program: Pubkey,
}

impl DepositToTheVault {
    /// The same accounts, with other data in the vault.
    pub open spec fn with_vault_data(self, data: TaskVault) -> DepositToTheVault {
        DepositToTheVault { task_vault: Account { data, ..self.task_vault }, ..self }
    }
}

/// What a deposit of `amount` does to a vault: `amount` is added to the record.
pub open spec fn deposit_spec(v: VaultModel, amount: u64) -> VaultModel
    recommends
        v.token_deposit + amount <= u64::MAX,
{
    v.with_deposit((v.token_deposit + amount) as u64)
}

/// The transfer that a deposit asks for: from the depositor's token account to the
/// vault's, signed by the depositor, of as many tokens as the vault recorded before.
pub open spec fn deposit_transfer(ctx: Context<DepositToTheVault>) -> TransferModel {
    TransferModel {
        token_program: ctx.accounts.token_program,
        from: ctx.accounts.authority_token_account,
        to: ctx.accounts.task_vault_token_account,
        authority: ctx.accounts.authority,
        amount: ctx.accounts.task_vault.data.token_deposit,
        signer_seeds: Seq::empty(),
    }
}

/// Deposits into the vault: asks for a transfer of the vault's recorded deposit from the
/// depositor, then adds `amount` to the record.
pub fn exec(ctx: &mut Context<DepositToTheVault>, amount: u64) -> (r: Result<TokenTransfer, ErrorCode>)
    requires
        old(ctx).accounts.task_vault.data.token_deposit + amount <= u64::MAX,
    ensures
        *final(ctx) == (Context {
            accounts: old(ctx).accounts.with_vault_data(final(ctx).accounts.task_vault.data),
            ..*old(ctx)
        }),
        final(ctx).accounts.task_vault.data@ == deposit_spec(old(ctx).accounts.task_vault.data@, amount),
        r matches Ok(t) && t@ == deposit_transfer(*old(ctx)),
{
    let transfer = TokenTransfer {
        token_program: ctx.accounts.token_program,
        from: ctx.accounts.authority_token_account,
        to: ctx.accounts.task_vault_token_account,
        authority: ctx.accounts.authority,
        amount: ctx.accounts.task_vault.data.token_deposit,
        signer_seeds: Vec::new(),
    };
    proof {
        assert(transfer.signer_seeds.deep_view() =~= Seq::<Seq<u8>>::empty());
    }
    ctx.accounts.task_vault.data.token_deposit = ctx.accounts.task_vault.data.token_deposit + amount;
    Ok(transfer)
}

} // verus!
