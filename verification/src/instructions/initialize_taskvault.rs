use vstd::prelude::*;

use crate::context::{Account, Context};
use crate::cpi::{TokenTransfer, TransferModel};
use crate::errors::ErrorCode;
use crate::pubkey::Pubkey;
use crate::schemas::task::Task;
use crate::schemas::task_vault::{TaskVault, VaultModel};

verus! {

/// The accounts that open a task's vault.
#[derive(Debug, PartialEq, Eq)]
pub struct InitializeTaskVault {
    /// The task's authority, who signs and makes the first deposit.
    pub authority: Pubkey,
    /// The address that owns the vault's token account.
    pub treasurer: Pubkey,
    pub mint_of_token_being_sent: Pubkey,
    /// The account that will be allowed to hand out rewards.
    pub reward_account: Pubkey,
    pub task: Account<Task>,
    /// The vault, newly made.
    pub task_vault: Account<TaskVault>,
    pub task_vault_token_account: Pubkey,
    pub authority_token_account: Pubkey,
    pub system_program: Pubkey,
    pub token_program: Pubkey,
    pub associated_token_program: Pubkey,
    pub rent: Pubkey,
}

impl InitializeTaskVault {
    /// The same accounts, with other data in the vault.
    pub open spec fn with_vault_data(self, data: TaskVault) -> InitializeTaskVault {
        InitializeTaskVault { task_vault: Account { data, ..self.task_vault }, ..self }
    }
}

/// The vault that opening makes: the signer is its authority, it records `amount` tokens and
/// pays `prize` per user, nobody was paid yet, and it holds the accounts' mint and reward account.
pub open spec fn initialized_vault(accounts: InitializeTaskVault, prize: u64, amount: u64) -> VaultModel {
    VaultModel {
        authority: accounts.authority,
        token_deposit: amount,
        prize,
        paid_to: Seq::empty(),
        mint_of_token_being_sent: accounts.mint_of_token_being_sent,
        reward_account: accounts.reward_account,
    }
}

/// The transfer that opening asks for: `amount` tokens from the authority's token account
/// to the vault's, signed by the authority.
pub open spec fn initialize_transfer(ctx: Context<InitializeTaskVault>, amount: u64) -> TransferModel {
    TransferModel {
        token_program: ctx.accounts.token_program,
        from: ctx.accounts.authority_token_account,
        to: ctx.accounts.task_vault_token_account,
        authority: ctx.accounts.authority,
        amount,
        signer_seeds: Seq::empty(),
    }
}

/// Opens the vault: fills in all its fields, whatever they held, and returns the transfer
/// of the first deposit.
pub fn exec(ctx: &mut Context<InitializeTaskVault>, prize: u64, amount: u64) -> (r: Result<TokenTransfer, ErrorCode>)
    ensures
        *final(ctx) == (Context {
            accounts: old(ctx).accounts.with_vault_data(final(ctx).accounts.task_vault.data),
            ..*old(ctx)
        }),
        final(ctx).accounts.task_vault.data@ == initialized_vault(old(ctx).accounts, prize, amount),
        r matches Ok(t) && t@ == initialize_transfer(*old(ctx), amount),
{
    ctx.accounts.task_vault.data.prize = prize;
    ctx.accounts.task_vault.data.paid_to = Vec::new();
    ctx.accounts.task_vault.data.authority = ctx.accounts.authority;
    ctx.accounts.task_vault.data.token_deposit = amount;
    ctx.accounts.task_vault.data.mint_of_token_being_sent = ctx.accounts.mint_of_token_being_sent;
    ctx.accounts.task_vault.data.reward_account = ctx.accounts.reward_account;
    let transfer = TokenTransfer {
        token_program: ctx.accounts.token_program,
        from: ctx.accounts.authority_token_account,
        to: ctx.accounts.task_vault_token_account,
        authority: ctx.accounts.authority,
        amount: ctx.accounts.task_vault.data.token_deposit,
        signer_seeds: Vec::new(),
    };
    proof {
        assert(transfer.signer_seeds.deep_view() =~= Seq::<Seq<u8>>::empty());
        assert(ctx.accounts.task_vault.data@ =~= initialized_vault(old(ctx).accounts, prize, amount));
    }
    Ok(transfer)
}

} // verus!
