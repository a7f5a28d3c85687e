use vstd::prelude::*;

use crate::pubkey::Pubkey;

verus! {

/// The vault of a task: the tokens it holds for rewards, the reward per user,
/// and the users that were rewarded already.
#[derive(Debug, PartialEq, Eq)]
pub struct TaskVault {
    pub authority: Pubkey,
    pub token_deposit: u64,
    pub prize: u64,
    pub paid_to: Vec<Pubkey>,
    pub mint_of_token_being_sent: Pubkey,
    pub reward_account: Pubkey,
}

/// What a vault holds, as mathematical values.
#[verifier::ext_equal]
pub struct VaultModel {
    pub authority: Pubkey,
    pub token_deposit: u64,
    pub prize: u64,
    pub paid_to: Seq<Pubkey>,
    pub mint_of_token_being_sent: Pubkey,
    pub reward_account: Pubkey,
}

impl View for TaskVault {
    type V = VaultModel;

    open spec fn view(&self) -> VaultModel {
        VaultModel {
            authority: self.authority,
            token_deposit: self.token_deposit,
            prize: self.prize,
            paid_to: self.paid_to@,
            mint_of_token_being_sent: self.mint_of_token_being_sent,
            reward_account: self.reward_account,
        }
    }
}

impl VaultModel {
    /// A vault is well formed when no user appears twice among those paid.
    pub open spec fn wf(self) -> bool {
        self.paid_to.no_duplicates()
    }

    /// The vault with another recorded deposit.
    pub open spec fn with_deposit(self, token_deposit: u64) -> VaultModel {
        VaultModel { token_deposit, ..self }
    }
}

impl TaskVault {
    /// Bytes of account space a vault takes: the account discriminator, the fixed fields,
    /// and 7000 bytes for the list of users paid.
    pub const SIZE: usize = 8 + 32 + 8 + 8 + 7000 + 32 + 32;
}

} // verus!
