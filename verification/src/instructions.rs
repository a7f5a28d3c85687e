pub mod deposit_to_the_vault;
pub mod initialize_task;
pub mod initialize_taskvault;
pub mod reward_user;
pub mod withdraw_from_the_vault;

pub use deposit_to_the_vault::DepositToTheVault;
pub use initialize_task::InitializeTask;
pub use initialize_taskvault::InitializeTaskVault;
pub use reward_user::RewardUser;
pub use withdraw_from_the_vault::WithdrawFromTheVault;
