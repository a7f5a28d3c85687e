pub mod task;
pub mod task_vault;

pub use task::Task;
pub use task_vault::{TaskVault, VaultModel};
