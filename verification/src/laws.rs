use vstd::prelude::*;

use crate::context::Context;
use crate::cpi::TransferModel;
use crate::errors::ErrorCode;
use crate::instructions::deposit_to_the_vault::{deposit_spec, deposit_transfer, DepositToTheVault};
use crate::instructions::initialize_taskvault::{initialize_transfer, initialized_vault, InitializeTaskVault};
use crate::instructions::reward_user::{reward_amount, reward_spec, reward_transfer, RewardUser};
use crate::instructions::withdraw_from_the_vault::{withdraw_spec, withdraw_transfer, WithdrawFromTheVault};
use crate::pubkey::Pubkey;
use crate::schemas::task_vault::{TaskVault, VaultModel};

verus! {

/// How many tokens a transfer moves into `account`: what it receives less what it pays.
pub open spec fn inflow(t: TransferModel, account: Pubkey) -> int {
    (if t.to == account { t.amount as int } else { 0 }) - (if t.from == account { t.amount as int } else { 0 })
}

/// A user is rewarded at most once: after a reward, rewarding the same user again is
/// refused as already paid.
pub proof fn lemma_reward_at_most_once(v: VaultModel, user: Pubkey)
    ensures
        reward_spec(v, user) matches Ok(v2) ==> reward_spec(v2, user) == Err::<VaultModel, ErrorCode>(
            ErrorCode::AlreadyPaid,
        ),
{
    if let Ok(v2) = reward_spec(v, user) {
        assert(v2.paid_to[v2.paid_to.len() - 1] == user);
    }
}

/// A new vault is well formed, and every instruction keeps a well-formed vault well formed:
/// no user is ever listed twice among those paid.
pub proof fn lemma_instructions_keep_wf(
    v: VaultModel,
    accounts: InitializeTaskVault,
    prize: u64,
    amount: u64,
    user: Pubkey,
)
    requires
        v.wf(),
    ensures
        initialized_vault(accounts, prize, amount).wf(),
        v.token_deposit + amount <= u64::MAX ==> deposit_spec(v, amount).wf(),
        withdraw_spec(v, amount) matches Ok(v2) ==> v2.wf(),
        reward_spec(v, user) matches Ok(v2) ==> v2.wf(),
{
    if let Ok(v2) = reward_spec(v, user) {
        assert forall|i: int, j: int|
            0 <= i < v2.paid_to.len() && 0 <= j < v2.paid_to.len() && i != j implies v2.paid_to[i]
            != v2.paid_to[j] by {
            if i < v.paid_to.len() && j < v.paid_to.len() {
                assert(v2.paid_to[i] == v.paid_to[i]);
                assert(v2.paid_to[j] == v.paid_to[j]);
            } else if i < v.paid_to.len() {
                assert(v.paid_to.contains(v.paid_to[i]));
            } else {
                assert(v.paid_to.contains(v.paid_to[j]));
            }
        }
    }
}

/// Whoever was paid stays recorded as paid, whatever instruction follows.
pub proof fn lemma_paid_stay_paid(v: VaultModel, amount: u64, user: Pubkey, paid: Pubkey)
    requires
        v.paid_to.contains(paid),
    ensures
        deposit_spec(v, amount).paid_to.contains(paid),
        withdraw_spec(v, amount) matches Ok(v2) ==> v2.paid_to.contains(paid),
        reward_spec(v, user) matches Ok(v2) ==> v2.paid_to.contains(paid),
{
    if let Ok(v2) = reward_spec(v, user) {
        let i = choose|i: int| 0 <= i < v.paid_to.len() && v.paid_to[i] == paid;
        assert(v2.paid_to[i] == paid);
    }
}

/// A deposit undoes a withdrawal of the same amount.
pub proof fn lemma_withdraw_then_deposit(v: VaultModel, amount: u64)
    ensures
        withdraw_spec(v, amount) matches Ok(v2) ==> {
            &&& v2.token_deposit + amount <= u64::MAX
            &&& deposit_spec(v2, amount) == v
        },
{
}

/// A withdrawal of the same amount undoes a deposit.
pub proof fn lemma_deposit_then_withdraw(v: VaultModel, amount: u64)
    requires
        v.token_deposit + amount <= u64::MAX,
    ensures
        withdraw_spec(deposit_spec(v, amount), amount) == Ok::<VaultModel, ErrorCode>(v),
{
}

/// A withdrawal is refused exactly when the vault records less than is asked for.
pub proof fn lemma_withdraw_refused_iff_short(v: VaultModel, amount: u64)
    ensures
        withdraw_spec(v, amount) is Err <==> v.token_deposit < amount,
        withdraw_spec(v, amount) is Err ==> withdraw_spec(v, amount) == Err::<VaultModel, ErrorCode>(
            ErrorCode::NotEnoughTokensFromTheVault,
        ),
{
}

/// A reward is the prize when the vault records enough, and otherwise all the vault
/// records, which empties it; it never exceeds either, and is taken off the record.
pub proof fn lemma_reward_amount(v: VaultModel, user: Pubkey)
    ensures
        reward_amount(v) <= v.prize,
        reward_amount(v) <= v.token_deposit,
        v.token_deposit >= v.prize ==> reward_amount(v) == v.prize,
        v.token_deposit < v.prize ==> reward_amount(v) == v.token_deposit,
        reward_spec(v, user) matches Ok(v2) ==> {
            &&& v2.token_deposit + reward_amount(v) == v.token_deposit
            &&& v2.prize == v.prize
            &&& (v.token_deposit < v.prize ==> v2.token_deposit == 0)
        },
{
}

/// Opening a vault records exactly what its first transfer moves into the vault's
/// token account.
pub proof fn lemma_initialize_ledger(ctx: Context<InitializeTaskVault>, prize: u64, amount: u64)
    requires
        ctx.accounts.authority_token_account != ctx.accounts.task_vault_token_account,
    ensures
        initialized_vault(ctx.accounts, prize, amount).token_deposit == inflow(
            initialize_transfer(ctx, amount),
            ctx.accounts.task_vault_token_account,
        ),
{
}

/// A withdrawal lowers the record by exactly what its transfer takes out of the vault's
/// token account.
pub proof fn lemma_withdraw_ledger(ctx: Context<WithdrawFromTheVault>, amount: u64)
    requires
        ctx.accounts.authority_token_account != ctx.accounts.task_vault_token_account,
    ensures
        withdraw_spec(ctx.accounts.task_vault.data@, amount) matches Ok(v2) ==> v2.token_deposit
            - ctx.accounts.task_vault.data.token_deposit == inflow(
            withdraw_transfer(ctx, amount),
            ctx.accounts.task_vault_token_account,
        ),
{
}

/// A reward lowers the record by exactly what its transfer takes out of the vault's
/// token account.
pub proof fn lemma_reward_ledger(ctx: Context<RewardUser>)
    requires
        ctx.accounts.user_to_reward_token_account != ctx.accounts.task_vault_token_account,
    ensures
        reward_spec(ctx.accounts.task_vault.data@, ctx.accounts.user_to_reward) matches Ok(v2)
            ==> v2.token_deposit - ctx.accounts.task_vault.data.token_deposit == inflow(
            reward_transfer(ctx),
            ctx.accounts.task_vault_token_account,
        ),
{
}

/// A deposit moves into the vault's token account as many tokens as the vault recorded
/// before, and raises the record by `amount`: the two agree only when `amount` is what
/// the vault recorded.
pub proof fn lemma_deposit_ledger(ctx: Context<DepositToTheVault>, amount: u64)
    requires
        ctx.accounts.authority_token_account != ctx.accounts.task_vault_token_account,
        ctx.accounts.task_vault.data.token_deposit + amount <= u64::MAX,
    ensures
        inflow(deposit_transfer(ctx), ctx.accounts.task_vault_token_account)
            == ctx.accounts.task_vault.data.token_deposit,
        deposit_spec(ctx.accounts.task_vault.data@, amount).token_deposit
            - ctx.accounts.task_vault.data.token_deposit == amount,
        (deposit_spec(ctx.accounts.task_vault.data@, amount).token_deposit
            - ctx.accounts.task_vault.data.token_deposit == inflow(
            deposit_transfer(ctx),
            ctx.accounts.task_vault_token_account,
        )) <==> amount == ctx.accounts.task_vault.data.token_deposit,
{
}



/// The seeds with which the program signs as a vault's treasurer: the bytes of the word
/// "treasurer", then the vault's address bytes in order, then the bump.
pub open spec fn signs_as_treasurer(seeds: Seq<Seq<u8>>, vault: Pubkey, bump: u8) -> bool {
    &&& seeds.len() == 3
    &&& seeds[0] == seq![116u8, 114u8, 101u8, 97u8, 115u8, 117u8, 114u8, 101u8, 114u8]
    &&& seeds[1].len() == 32
    &&& forall|i: int| 0 <= i < 32 ==> seeds[1][i] == vault.bytes[i]
    &&& seeds[2] == seq![bump]
}

/// Rewarding is refused exactly when the user was paid before: a user not yet paid is always
/// rewarded, whatever the vault holds and however many were paid, and is then listed last
/// after those paid before, with the reward taken off the record and nothing else changed.
pub proof fn lemma_reward_succeeds_iff_unpaid(v: VaultModel, user: Pubkey)
    ensures
        reward_spec(v, user) is Ok <==> !v.paid_to.contains(user),
        reward_spec(v, user) is Err ==> reward_spec(v, user) == Err::<VaultModel, ErrorCode>(
            ErrorCode::AlreadyPaid,
        ),
        reward_spec(v, user) matches Ok(v2) ==> {
            &&& v2.paid_to.len() == v.paid_to.len() + 1
            &&& v2.paid_to[v.paid_to.len() as int] == user
            &&& forall|i: int| 0 <= i < v.paid_to.len() ==> v2.paid_to[i] == v.paid_to[i]
            &&& v2.token_deposit == v.token_deposit - (if v.prize <= v.token_deposit {
                v.prize
            } else {
                v.token_deposit
            })
            &&& v2.prize == v.prize
            &&& v2.authority == v.authority
            &&& v2.mint_of_token_being_sent == v.mint_of_token_being_sent
            &&& v2.reward_account == v.reward_account
        },
{
}

/// A reward's transfer pays the reward out of the vault's token account into the rewarded
/// user's token account, signed by the program as the vault's treasurer.
pub proof fn lemma_reward_transfer(ctx: Context<RewardUser>)
    ensures
        reward_transfer(ctx).from == ctx.accounts.task_vault_token_account,
        reward_transfer(ctx).to == ctx.accounts.user_to_reward_token_account,
        reward_transfer(ctx).authority == ctx.accounts.treasurer,
        reward_transfer(ctx).token_program == ctx.accounts.token_program,
        reward_transfer(ctx).amount == (if ctx.accounts.task_vault.data.prize
            <= ctx.accounts.task_vault.data.token_deposit {
            ctx.accounts.task_vault.data.prize
        } else {
            ctx.accounts.task_vault.data.token_deposit
        }),
        signs_as_treasurer(
            reward_transfer(ctx).signer_seeds,
            ctx.accounts.task_vault.key,
            ctx.bumps.treasurer,
        ),
{
}

/// A withdrawal's transfer moves the amount asked for out of the vault's token account into
/// the authority's token account, signed by the program as the vault's treasurer; and a
/// withdrawal that is allowed takes exactly that amount off the record and changes nothing else.
pub proof fn lemma_withdraw_transfer(ctx: Context<WithdrawFromTheVault>, amount: u64)
    ensures
        withdraw_transfer(ctx, amount).from == ctx.accounts.task_vault_token_account,
        withdraw_transfer(ctx, amount).to == ctx.accounts.authority_token_account,
        withdraw_transfer(ctx, amount).authority == ctx.accounts.treasurer,
        withdraw_transfer(ctx, amount).token_program == ctx.accounts.token_program,
        withdraw_transfer(ctx, amount).amount == amount,
        signs_as_treasurer(
            withdraw_transfer(ctx, amount).signer_seeds,
            ctx.accounts.task_vault.key,
            ctx.bumps.treasurer,
        ),
        withdraw_spec(ctx.accounts.task_vault.data@, amount) matches Ok(v2) ==> {
            &&& v2.token_deposit + amount == ctx.accounts.task_vault.data.token_deposit
            &&& v2.paid_to == ctx.accounts.task_vault.data@.paid_to
            &&& v2.prize == ctx.accounts.task_vault.data.prize
            &&& v2.authority == ctx.accounts.task_vault.data.authority
            &&& v2.mint_of_token_being_sent == ctx.accounts.task_vault.data.mint_of_token_being_sent
            &&& v2.reward_account == ctx.accounts.task_vault.data.reward_account
        },
{
}

/// A deposit's transfer is authorised by the signing depositor: it moves tokens from the
/// depositor's token account into the vault's, as many as the vault recorded before, with no
/// seeds of the program; and the record grows by the amount, nothing else changing.
pub proof fn lemma_deposit_transfer(ctx: Context<DepositToTheVault>, amount: u64)
    requires
        ctx.accounts.task_vault.data.token_deposit + amount <= u64::MAX,
    ensures
        deposit_transfer(ctx).authority == ctx.accounts.authority,
        deposit_transfer(ctx).from == ctx.accounts.authority_token_account,
        deposit_transfer(ctx).to == ctx.accounts.task_vault_token_account,
        deposit_transfer(ctx).token_program == ctx.accounts.token_program,
        deposit_transfer(ctx).amount == ctx.accounts.task_vault.data.token_deposit,
        deposit_transfer(ctx).signer_seeds.len() == 0,
        deposit_spec(ctx.accounts.task_vault.data@, amount).token_deposit
            == ctx.accounts.task_vault.data.token_deposit + amount,
        deposit_spec(ctx.accounts.task_vault.data@, amount).paid_to == ctx.accounts.task_vault.data@.paid_to,
        deposit_spec(ctx.accounts.task_vault.data@, amount).prize == ctx.accounts.task_vault.data.prize,
        deposit_spec(ctx.accounts.task_vault.data@, amount).authority == ctx.accounts.task_vault.data.authority,
        deposit_spec(ctx.accounts.task_vault.data@, amount).mint_of_token_being_sent
            == ctx.accounts.task_vault.data.mint_of_token_being_sent,
        deposit_spec(ctx.accounts.task_vault.data@, amount).reward_account
            == ctx.accounts.task_vault.data.reward_account,
{
}

/// Opening a vault records the prize and the first deposit exactly as given, the signer as
/// authority, the given mint and reward account, and nobody paid; its transfer moves the
/// first deposit from the signer's token account into the vault's, signed by the signer.
pub proof fn lemma_initialize_records_arguments(ctx: Context<InitializeTaskVault>, prize: u64, amount: u64)
    ensures
        initialized_vault(ctx.accounts, prize, amount).prize == prize,
        initialized_vault(ctx.accounts, prize, amount).token_deposit == amount,
        initialized_vault(ctx.accounts, prize, amount).paid_to.len() == 0,
        initialized_vault(ctx.accounts, prize, amount).authority == ctx.accounts.authority,
        initialized_vault(ctx.accounts, prize, amount).mint_of_token_being_sent
            == ctx.accounts.mint_of_token_being_sent,
        initialized_vault(ctx.accounts, prize, amount).reward_account == ctx.accounts.reward_account,
        initialize_transfer(ctx, amount).amount == amount,
        initialize_transfer(ctx, amount).authority == ctx.accounts.authority,
        initialize_transfer(ctx, amount).from == ctx.accounts.authority_token_account,
        initialize_transfer(ctx, amount).to == ctx.accounts.task_vault_token_account,
        initialize_transfer(ctx, amount).signer_seeds.len() == 0,
        initialize_transfer(ctx, amount).token_program == ctx.accounts.token_program,
{
}

/// Writing a vault's new data back into an instruction's accounts changes the vault's data
/// and nothing else: every other account, and the vault's address, stay as they were.
pub proof fn lemma_only_vault_data_changes(
    w: WithdrawFromTheVault,
    d: DepositToTheVault,
    r: RewardUser,
    i: InitializeTaskVault,
    data: TaskVault,
)
    ensures
        ({
            let w2 = w.with_vault_data(data);
            &&& w2.task_vault.data == data
            &&& w2.task_vault.key == w.task_vault.key
            &&& w2.authority == w.authority
            &&& w2.treasurer == w.treasurer
            &&& w2.task_vault_token_account == w.task_vault_token_account
            &&& w2.authority_token_account == w.authority_token_account
            &&& w2.mint_of_token_being_sent == w.mint_of_token_being_sent
            &&& w2.system_program == w.system_program
            &&& w2.token_program == w.token_program
        }),
        ({
            let d2 = d.with_vault_data(data);
            &&& d2.task_vault.data == data
            &&& d2.task_vault.key == d.task_vault.key
            &&& d2.authority == d.authority
            &&& d2.treasurer == d.treasurer
            &&& d2.mint_of_token_being_sent == d.mint_of_token_being_sent
            &&& d2.task_vault_token_account == d.task_vault_token_account
            &&& d2.authority_token_account == d.authority_token_account
            &&& d2.system_program == d.system_program
            &&& d2.token_program == d.token_program
        }),
        ({
            let r2 = r.with_vault_data(data);
            &&& r2.task_vault.data == data
            &&& r2.task_vault.key == r.task_vault.key
            &&& r2.reward_account == r.reward_account
            &&& r2.user_to_reward == r.user_to_reward
            &&& r2.treasurer == r.treasurer
            &&& r2.task_vault_token_account == r.task_vault_token_account
            &&& r2.user_to_reward_token_account == r.user_to_reward_token_account
            &&& r2.mint_of_token_being_sent == r.mint_of_token_being_sent
            &&& r2.system_program == r.system_program
            &&& r2.token_program == r.token_program
        }),
        ({
            let i2 = i.with_vault_data(data);
            &&& i2.task_vault.data == data
            &&& i2.task_vault.key == i.task_vault.key
            &&& i2.authority == i.authority
            &&& i2.treasurer == i.treasurer
            &&& i2.mint_of_token_being_sent == i.mint_of_token_being_sent
            &&& i2.reward_account == i.reward_account
            &&& i2.task == i.task
            &&& i2.task_vault_token_account == i.task_vault_token_account
            &&& i2.authority_token_account == i.authority_token_account
            &&& i2.system_program == i.system_program
            &&& i2.token_program == i.token_program
            &&& i2.associated_token_program == i.associated_token_program
            &&& i2.rent == i.rent
        }),
{
}

} // verus!
