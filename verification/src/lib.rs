//! The rules of a task-reward vault: a task's authority opens a vault with a deposit of
//! tokens and a prize per user, may deposit and withdraw, and the vault's reward account
//! pays each user the prize once. Each instruction changes the vault's record and returns
//! the token transfer that it asks the token program to make.
use vstd::prelude::*;

pub mod context;
pub mod cpi;
pub mod errors;
pub mod instructions;
pub mod laws;
pub mod plats_solana;
pub mod pubkey;
pub mod schemas;

pub use context::{Account, Bumps, Context};
pub use cpi::TokenTransfer;
pub use errors::ErrorCode;
pub use instructions::{DepositToTheVault, InitializeTask, InitializeTaskVault, RewardUser, WithdrawFromTheVault};
pub use pubkey::Pubkey;
pub use schemas::{Task, TaskVault, VaultModel};
