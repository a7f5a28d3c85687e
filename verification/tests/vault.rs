use plats_solana::cpi::treasurer_seeds;
use plats_solana::instructions::{deposit_to_the_vault, initialize_task, initialize_taskvault, reward_user, withdraw_from_the_vault};
use plats_solana::plats_solana as program;
use plats_solana::{
    Account, Bumps, Context, DepositToTheVault, ErrorCode, InitializeTask, InitializeTaskVault, Pubkey, RewardUser,
    Task, TaskVault, TokenTransfer, WithdrawFromTheVault,
};

fn key(b: u8) -> Pubkey {
    Pubkey::new_from_array([b; 32])
}

const AUTHORITY: u8 = 1;
const VAULT: u8 = 2;
const TREASURER: u8 = 3;
const VAULT_TA: u8 = 4;
const AUTHORITY_TA: u8 = 5;
const MINT: u8 = 6;
const SYSTEM: u8 = 7;
const TOKEN: u8 = 8;
const REWARDER: u8 = 9;
const PROGRAM: u8 = 10;
const BUMP: u8 = 254;

fn vault(deposit: u64, prize: u64, paid: Vec<Pubkey>) -> TaskVault {
    TaskVault {
        authority: key(AUTHORITY),
        token_deposit: deposit,
        prize,
        paid_to: paid,
        mint_of_token_being_sent: key(MINT),
        reward_account: key(REWARDER),
    }
}

fn expected_seeds() -> Vec<Vec<u8>> {
    vec![b"treasurer".to_vec(), vec![VAULT; 32], vec![BUMP]]
}

fn withdraw_ctx(deposit: u64) -> Context<WithdrawFromTheVault> {
    Context {
        program_id: key(PROGRAM),
        accounts: WithdrawFromTheVault {
            authority: key(AUTHORITY),
            task_vault: Account { key: key(VAULT), data: vault(deposit, 10, vec![]) },
            treasurer: key(TREASURER),
            task_vault_token_account: key(VAULT_TA),
            authority_token_account: key(AUTHORITY_TA),
            mint_of_token_being_sent: key(MINT),
            system_program: key(SYSTEM),
            token_program: key(TOKEN),
        },
        bumps: Bumps { treasurer: BUMP },
    }
}

fn deposit_ctx(deposit: u64) -> Context<DepositToTheVault> {
    Context {
        program_id: key(PROGRAM),
        accounts: DepositToTheVault {
            authority: key(AUTHORITY),
            task_vault: Account { key: key(VAULT), data: vault(deposit, 10, vec![]) },
            treasurer: key(TREASURER),
            mint_of_token_being_sent: key(MINT),
            task_vault_token_account: key(VAULT_TA),
            authority_token_account: key(AUTHORITY_TA),
            system_program: key(SYSTEM),
            token_program: key(TOKEN),
        },
        bumps: Bumps { treasurer: BUMP },
    }
}

fn reward_ctx(deposit: u64, prize: u64, paid: Vec<Pubkey>, user: u8) -> Context<RewardUser> {
    Context {
        program_id: key(PROGRAM),
        accounts: RewardUser {
            reward_account: key(REWARDER),
            user_to_reward: key(user),
            task_vault: Account { key: key(VAULT), data: vault(deposit, prize, paid) },
            treasurer: key(TREASURER),
            task_vault_token_account: key(VAULT_TA),
            user_to_reward_token_account: key(user + 100),
            mint_of_token_being_sent: key(MINT),
            system_program: key(SYSTEM),
            token_program: key(TOKEN),
        },
        bumps: Bumps { treasurer: BUMP },
    }
}

fn init_ctx(old: TaskVault) -> Context<InitializeTaskVault> {
    Context {
        program_id: key(PROGRAM),
        accounts: InitializeTaskVault {
            authority: key(AUTHORITY),
            treasurer: key(TREASURER),
            mint_of_token_being_sent: key(MINT),
            reward_account: key(REWARDER),
            task: Account {
                key: key(40),
                data: Task { authority: key(AUTHORITY), mint_of_token_being_sent: key(MINT), task_id: 3 },
            },
            task_vault: Account { key: key(VAULT), data: old },
            task_vault_token_account: key(VAULT_TA),
            authority_token_account: key(AUTHORITY_TA),
            system_program: key(SYSTEM),
            token_program: key(TOKEN),
            associated_token_program: key(41),
            rent: key(42),
        },
        bumps: Bumps { treasurer: BUMP },
    }
}

fn inflow(t: &TokenTransfer, account: Pubkey) -> i128 {
    let mut n: i128 = 0;
    if t.to == account {
        n += t.amount as i128;
    }
    if t.from == account {
        n -= t.amount as i128;
    }
    n
}

#[test]
fn pubkey_round_trip() {
    let mut bytes = [0u8; 32];
    bytes[5] = 9;
    let k = Pubkey::new_from_array(bytes);
    assert_eq!(k.to_bytes(), bytes);
    assert_eq!(k, Pubkey::new_from_array(bytes));
    let mut other = bytes;
    other[31] = 1;
    assert_ne!(k, Pubkey::new_from_array(other));
}

#[test]
fn error_codes_numbers_and_messages() {
    assert_eq!(ErrorCode::NotEnoughTokensFromTheVault.code(), 6000);
    assert_eq!(ErrorCode::AlreadyPaid.code(), 6001);
    assert_eq!(ErrorCode::NotEnoughTokensFromTheVault.message(), "Not enough tokens from the vault.");
    assert_eq!(ErrorCode::AlreadyPaid.message(), "Already paid");
    assert_eq!(ErrorCode::NotEnoughTokensFromTheVault.name(), "NotEnoughTokensFromTheVault");
    assert_eq!(ErrorCode::AlreadyPaid.name(), "AlreadyPaid");
}

#[test]
fn account_sizes() {
    assert_eq!(Task::SIZE, 80);
    assert_eq!(TaskVault::SIZE, 7120);
}

#[test]
fn treasurer_seeds_are_word_vault_and_bump() {
    assert_eq!(treasurer_seeds(&key(VAULT), BUMP), expected_seeds());
    assert_eq!(treasurer_seeds(&key(0), 0), vec![b"treasurer".to_vec(), vec![0u8; 32], vec![0u8]]);
}

#[test]
fn initialize_task_succeeds_and_writes_nothing() {
    let ctx = Context {
        program_id: key(PROGRAM),
        accounts: InitializeTask {
            authority: key(AUTHORITY),
            task: Account { key: key(40), data: Task { authority: key(0), mint_of_token_being_sent: key(0), task_id: 0 } },
            treasurer: key(TREASURER),
            mint: key(MINT),
        },
        bumps: Bumps { treasurer: BUMP },
    };
    assert_eq!(initialize_task::exec(&ctx, 5, 6), Ok(()));
    assert_eq!(ctx.accounts.task.data, Task { authority: key(0), mint_of_token_being_sent: key(0), task_id: 0 });
}

#[test]
fn initialize_fills_every_field_and_asks_for_the_first_deposit() {
    let stale = TaskVault {
        authority: key(77),
        token_deposit: 999,
        prize: 1,
        paid_to: vec![key(50), key(51)],
        mint_of_token_being_sent: key(78),
        reward_account: key(79),
    };
    let mut ctx = init_ctx(stale);
    let t = initialize_taskvault::exec(&mut ctx, 25, 300).unwrap();
    assert_eq!(ctx.accounts.task_vault.data, vault(300, 25, vec![]));
    assert_eq!(ctx.accounts.task_vault.key, key(VAULT));
    assert_eq!(
        t,
        TokenTransfer {
            token_program: key(TOKEN),
            from: key(AUTHORITY_TA),
            to: key(VAULT_TA),
            authority: key(AUTHORITY),
            amount: 300,
            signer_seeds: vec![],
        }
    );
}

#[test]
fn initialize_entry_ignores_the_bump_argument() {
    let mut a = init_ctx(vault(0, 0, vec![]));
    let mut b = init_ctx(vault(0, 0, vec![]));
    let ta = program::initialize_taskvault(&mut a, 1, 7, 70).unwrap();
    let tb = program::initialize_taskvault(&mut b, 200, 7, 70).unwrap();
    assert_eq!(ta, tb);
    assert_eq!(a, b);
    assert_eq!(a.accounts.task_vault.data, vault(70, 7, vec![]));
}

#[test]
fn deposit_transfers_the_old_record_and_adds_the_amount() {
    let mut ctx = deposit_ctx(50);
    let t = deposit_to_the_vault::exec(&mut ctx, 20).unwrap();
    assert_eq!(ctx.accounts.task_vault.data.token_deposit, 70);
    assert_eq!(
        t,
        TokenTransfer {
            token_program: key(TOKEN),
            from: key(AUTHORITY_TA),
            to: key(VAULT_TA),
            authority: key(AUTHORITY),
            amount: 50,
            signer_seeds: vec![],
        }
    );
}

#[test]
fn deposit_into_empty_vault_transfers_nothing() {
    let mut ctx = deposit_ctx(0);
    let t = program::deposit_to_the_vault(&mut ctx, 5).unwrap();
    assert_eq!(t.amount, 0);
    assert_eq!(ctx.accounts.task_vault.data.token_deposit, 5);
}

#[test]
fn deposit_up_to_the_largest_record() {
    let mut ctx = deposit_ctx(u64::MAX - 3);
    let t = deposit_to_the_vault::exec(&mut ctx, 3).unwrap();
    assert_eq!(ctx.accounts.task_vault.data.token_deposit, u64::MAX);
    assert_eq!(t.amount, u64::MAX - 3);
}

#[test]
fn withdraw_lowers_the_record_and_signs_as_treasurer() {
    let mut ctx = withdraw_ctx(100);
    let t = withdraw_from_the_vault::exec(&mut ctx, 40).unwrap();
    assert_eq!(ctx.accounts.task_vault.data, vault(60, 10, vec![]));
    assert_eq!(
        t,
        TokenTransfer {
            token_program: key(TOKEN),
            from: key(VAULT_TA),
            to: key(AUTHORITY_TA),
            authority: key(TREASURER),
            amount: 40,
            signer_seeds: expected_seeds(),
        }
    );
}

#[test]
fn withdraw_everything() {
    let mut ctx = withdraw_ctx(100);
    let t = program::withdraw_from_the_vault(&mut ctx, 100).unwrap();
    assert_eq!(t.amount, 100);
    assert_eq!(ctx.accounts.task_vault.data.token_deposit, 0);
}

#[test]
fn withdraw_nothing() {
    let mut ctx = withdraw_ctx(0);
    let t = withdraw_from_the_vault::exec(&mut ctx, 0).unwrap();
    assert_eq!(t.amount, 0);
    assert_eq!(ctx.accounts.task_vault.data.token_deposit, 0);
}

#[test]
fn withdraw_more_than_recorded_is_refused_and_changes_nothing() {
    let mut ctx = withdraw_ctx(100);
    let r = withdraw_from_the_vault::exec(&mut ctx, 101);
    assert_eq!(r, Err(ErrorCode::NotEnoughTokensFromTheVault));
    assert_eq!(ctx, withdraw_ctx(100));
    let r = program::withdraw_from_the_vault(&mut ctx, u64::MAX);
    assert_eq!(r, Err(ErrorCode::NotEnoughTokensFromTheVault));
    assert_eq!(ctx, withdraw_ctx(100));
}

#[test]
fn reward_pays_the_prize_when_the_vault_has_enough() {
    let mut ctx = reward_ctx(100, 30, vec![], 20);
    let t = reward_user::exec(&mut ctx).unwrap();
    assert_eq!(ctx.accounts.task_vault.data, vault(70, 30, vec![key(20)]));
    assert_eq!(
        t,
        TokenTransfer {
            token_program: key(TOKEN),
            from: key(VAULT_TA),
            to: key(120),
            authority: key(TREASURER),
            amount: 30,
            signer_seeds: expected_seeds(),
        }
    );
}

#[test]
fn reward_pays_what_is_left_when_the_prize_is_larger() {
    let mut ctx = reward_ctx(20, 30, vec![key(21)], 20);
    let t = reward_user::exec(&mut ctx).unwrap();
    assert_eq!(t.amount, 20);
    assert_eq!(ctx.accounts.task_vault.data, vault(0, 30, vec![key(21), key(20)]));
}

#[test]
fn reward_of_exactly_the_record_empties_the_vault() {
    let mut ctx = reward_ctx(30, 30, vec![], 20);
    let t = reward_user::exec(&mut ctx).unwrap();
    assert_eq!(t.amount, 30);
    assert_eq!(ctx.accounts.task_vault.data.token_deposit, 0);
}

#[test]
fn reward_from_an_empty_vault_still_records_the_user() {
    let mut ctx = reward_ctx(0, 30, vec![], 20);
    let t = reward_user::exec(&mut ctx).unwrap();
    assert_eq!(t.amount, 0);
    assert_eq!(ctx.accounts.task_vault.data.paid_to, vec![key(20)]);
}

#[test]
fn reward_of_a_user_paid_before_is_refused_and_changes_nothing() {
    let mut ctx = reward_ctx(100, 30, vec![key(21), key(20), key(22)], 20);
    assert_eq!(reward_user::exec(&mut ctx), Err(ErrorCode::AlreadyPaid));
    assert_eq!(ctx, reward_ctx(100, 30, vec![key(21), key(20), key(22)], 20));
}

#[test]
fn law_reward_at_most_once() {
    let mut ctx = reward_ctx(100, 30, vec![], 20);
    assert!(reward_user::exec(&mut ctx).is_ok());
    assert_eq!(reward_user::exec(&mut ctx), Err(ErrorCode::AlreadyPaid));
    assert_eq!(ctx.accounts.task_vault.data, vault(70, 30, vec![key(20)]));
}

#[test]
fn law_no_user_listed_twice() {
    let mut ctx = reward_ctx(1000, 30, vec![], 20);
    for user in [20u8, 21, 20, 22, 21, 20] {
        ctx.accounts.user_to_reward = key(user);
        let _ = reward_user::exec(&mut ctx);
    }
    assert_eq!(ctx.accounts.task_vault.data.paid_to, vec![key(20), key(21), key(22)]);
    assert_eq!(ctx.accounts.task_vault.data.token_deposit, 910);
}

#[test]
fn law_paid_users_stay_paid() {
    let mut ctx = withdraw_ctx(100);
    ctx.accounts.task_vault.data.paid_to = vec![key(20)];
    withdraw_from_the_vault::exec(&mut ctx, 10).unwrap();
    assert_eq!(ctx.accounts.task_vault.data.paid_to, vec![key(20)]);
    let mut r = reward_ctx(100, 30, vec![key(20)], 21);
    reward_user::exec(&mut r).unwrap();
    assert_eq!(r.accounts.task_vault.data.paid_to, vec![key(20), key(21)]);
}

#[test]
fn law_deposit_undoes_withdraw() {
    let mut w = withdraw_ctx(100);
    withdraw_from_the_vault::exec(&mut w, 35).unwrap();
    let mut d = deposit_ctx(w.accounts.task_vault.data.token_deposit);
    deposit_to_the_vault::exec(&mut d, 35).unwrap();
    assert_eq!(d.accounts.task_vault.data, vault(100, 10, vec![]));
}

#[test]
fn law_withdraw_undoes_deposit() {
    let mut d = deposit_ctx(100);
    deposit_to_the_vault::exec(&mut d, 35).unwrap();
    let mut w = withdraw_ctx(d.accounts.task_vault.data.token_deposit);
    withdraw_from_the_vault::exec(&mut w, 35).unwrap();
    assert_eq!(w.accounts.task_vault.data, vault(100, 10, vec![]));
}

#[test]
fn law_ledger_follows_transfers_except_for_deposit() {
    let mut i = init_ctx(vault(0, 0, vec![]));
    let t = initialize_taskvault::exec(&mut i, 5, 60).unwrap();
    assert_eq!(i.accounts.task_vault.data.token_deposit as i128, inflow(&t, key(VAULT_TA)));

    let mut w = withdraw_ctx(60);
    let t = withdraw_from_the_vault::exec(&mut w, 25).unwrap();
    assert_eq!(35 - 60, inflow(&t, key(VAULT_TA)));

    let mut r = reward_ctx(35, 50, vec![], 20);
    let t = reward_user::exec(&mut r).unwrap();
    assert_eq!(0 - 35, inflow(&t, key(VAULT_TA)));

    let mut d = deposit_ctx(40);
    let t = deposit_to_the_vault::exec(&mut d, 40).unwrap();
    assert_eq!(80 - 40, inflow(&t, key(VAULT_TA)));

    let mut d = deposit_ctx(0);
    let t = deposit_to_the_vault::exec(&mut d, 5).unwrap();
    assert_eq!(d.accounts.task_vault.data.token_deposit, 5);
    assert_eq!(inflow(&t, key(VAULT_TA)), 0);
}
