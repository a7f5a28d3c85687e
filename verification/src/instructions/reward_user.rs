use vstd::prelude::*;

use crate::context::{Account, Context};
use crate::cpi::{treasurer_seeds, treasurer_seeds_spec, TokenTransfer, TransferModel};
use crate::errors::ErrorCode;
use crate::pubkey::Pubkey;
use crate::schemas::task_vault::{TaskVault, VaultModel};

verus! {

/// The accounts of a reward: the vault's reward account pays a user once.
#[derive(Debug, PartialEq, Eq)]
pub struct RewardUser {
    /// The account allowed to hand out rewards, who signs.
    pub reward_account: Pubkey,
    /// The user who is rewarded.
    pub user_to_reward: Pubkey,
    pub task_vault: Account<TaskVault>,
    /// The address that owns the vault's token account.
    pub treasurer: Pubkey,
    pub task_vault_token_account: Pubkey,
    pub user_to_reward_token_account: Pubkey,
    pub mint_of_token_being_sent: Pubkey,
    pub system_program: Pubkey,
    pub token_program: Pubkey,
}

impl RewardUser {
    /// The same accounts, with other data in the vault.
    pub open spec fn with_vault_data(self, data: TaskVault) -> RewardUser {
        RewardUser { task_vault: Account { data, ..self.task_vault }, ..self }
    }
}

/// The reward a vault pays: its prize, or all it records when that is less.
pub open spec fn reward_amount(v: VaultModel) -> u64 {
    if v.prize > v.token_deposit {
        v.token_deposit
    } else {
        v.prize
    }
}

/// What rewarding `user` does to a vault: it fails when `user` was paid before, and
/// otherwise records `user` as paid and takes the reward off the record.
pub open spec fn reward_spec(v: VaultModel, user: Pubkey) -> Result<VaultModel, ErrorCode> {
    if v.paid_to.contains(user) {
        Err(ErrorCode::AlreadyPaid)
    } else {
        Ok(VaultModel {
            paid_to: v.paid_to.push(user),
            token_deposit: (v.token_deposit - reward_amount(v)) as u64,
            ..v
        })
    }
}

/// The transfer that a reward asks for: the reward, from the vault's token account to the
/// user's, signed by the program as the treasurer.
pub open spec fn reward_transfer(ctx: Context<RewardUser>) -> TransferModel {
    TransferModel {
        token_program: ctx.accounts.token_program,
        from: ctx.accounts.task_vault_token_account,
        to: ctx.accounts.user_to_reward_token_account,
        authority: ctx.accounts.treasurer,
        amount: reward_amount(ctx.accounts.task_vault.data@),
        signer_seeds: treasurer_seeds_spec(ctx.accounts.task_vault.key, ctx.bumps.treasurer),
    }
}

/// Whether `key` is among `keys`.
fn contains_key(keys: &Vec<Pubkey>, key: &Pubkey) -> (found: bool)
    ensures
        found == keys@.contains(*key),
{
    let mut i: usize = 0;
    while i < keys.len()
        invariant
            i <= keys.len(),
            forall|j: int| 0 <= j < i ==> keys@[j] != *key,
        decreases keys.len() - i,
    {
        if keys[i] == *key {
            return true;
        }
        i = i + 1;
    }
    false
}

/// Rewards the user once: records the user as paid, takes the reward off the vault's
/// record and returns the transfer to make; fails, changing nothing, when the user was
/// paid before.
pub fn exec(ctx: &mut Context<RewardUser>) -> (r: Result<TokenTransfer, ErrorCode>)
    ensures
        *final(ctx) == (Context {
            accounts: old(ctx).accounts.with_vault_data(final(ctx).accounts.task_vault.data),
            ..*old(ctx)
        }),
        match reward_spec(old(ctx).accounts.task_vault.data@, old(ctx).accounts.user_to_reward) {
            Ok(v) => {
                &&& r matches Ok(t) && t@ == reward_transfer(*old(ctx))
                &&& final(ctx).accounts.task_vault.data@ == v
            },
            Err(e) => {
                &&& r == Err::<TokenTransfer, ErrorCode>(e)
                &&& *final(ctx) == *old(ctx)
            },
        },
{
    let user = ctx.accounts.user_to_reward;
    if contains_key(&ctx.accounts.task_vault.data.paid_to, &user) {
        return Err(ErrorCode::AlreadyPaid);
    }
    ctx.accounts.task_vault.data.paid_to.push(user);
    let amount = if ctx.accounts.task_vault.data.prize > ctx.accounts.task_vault.data.token_deposit {
        ctx.accounts.task_vault.data.token_deposit
    } else {
        ctx.accounts.task_vault.data.prize
    };
    ctx.accounts.task_vault.data.token_deposit = ctx.accounts.task_vault.data.token_deposit - amount;
    let signer_seeds = treasurer_seeds(&ctx.accounts.task_vault.key, ctx.bumps.treasurer);
    Ok(TokenTransfer {
        token_program: ctx.accounts.token_program,
        from: ctx.accounts.task_vault_token_account,
        to: ctx.accounts.user_to_reward_token_account,
        authority: ctx.accounts.treasurer,
        amount,
        signer_seeds,
    })
}

} // verus!
