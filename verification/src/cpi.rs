use vstd::prelude::*;

use crate::pubkey::Pubkey;

verus! {

/// A transfer that the program asks the token program to make.
#[derive(Debug, PartialEq, Eq)]
pub struct TokenTransfer {
    /// The token program that is asked.
    pub token_program: Pubkey,
    /// The token account that pays.
    pub from: Pubkey,
    /// The token account that receives.
    pub to: Pubkey,
    /// The owner of `from`, who signs the transfer.
    pub authority: Pubkey,
    /// The number of tokens.
    pub amount: u64,
    /// The seeds with which the program signs for `authority`; empty when
    /// `authority` signed the transaction itself.
    pub signer_seeds: Vec<Vec<u8>>,
}

/// A transfer, as mathematical values.
#[verifier::ext_equal]
pub struct TransferModel {
    pub token_program: Pubkey,
    pub from: Pubkey,
    pub to: Pubkey,
    pub authority: Pubkey,
    pub amount: u64,
    pub signer_seeds: Seq<Seq<u8>>,
}

impl View for TokenTransfer {
    type V = TransferModel;

    open spec fn view(&self) -> TransferModel {
        TransferModel {
            token_program: self.token_program,
            from: self.from,
            to: self.to,
            authority: self.authority,
            amount: self.amount,
            signer_seeds: self.signer_seeds.deep_view(),
        }
    }
}

/// The bytes of the word "treasurer", the first seed of the treasurer's address.
pub open spec fn treasurer_tag() -> Seq<u8> {
    seq![116u8, 114u8, 101u8, 97u8, 115u8, 117u8, 114u8, 101u8, 114u8]
}

/// The seeds of the treasurer of a vault: the word "treasurer", the vault's address, the bump.
pub open spec fn treasurer_seeds_spec(vault: Pubkey, bump: u8) -> Seq<Seq<u8>> {
    seq![treasurer_tag(), vault@, seq![bump]]
}

/// The seeds with which the program signs as the treasurer of the vault at `vault`.
pub fn treasurer_seeds(vault: &Pubkey, bump: u8) -> (seeds: Vec<Vec<u8>>)
    ensures
        seeds.deep_view() == treasurer_seeds_spec(*vault, bump),
        seeds@.len() == 3,
        seeds@[0]@ == seq![116u8, 114u8, 101u8, 97u8, 115u8, 117u8, 114u8, 101u8, 114u8],
        seeds@[1]@ == vault@,
        seeds@[2]@ == seq![bump],
{
    let tag: Vec<u8> = vec![116u8, 114u8, 101u8, 97u8, 115u8, 117u8, 114u8, 101u8, 114u8];
    let mut key: Vec<u8> = Vec::new();
    let mut i: usize = 0;
    while i < 32
        invariant
            i <= 32,
            key@ == vault@.take(i as int),
        decreases 32 - i,
    {
        key.push(vault.bytes[i]);
        i = i + 1;
        proof {
            assert(key@ =~= vault@.take(i as int));
        }
    }
    let bump_seed: Vec<u8> = vec![bump];
    let seeds: Vec<Vec<u8>> = vec![tag, key, bump_seed];
    proof {
        assert(key@ =~= vault@);
        assert(tag.deep_view() =~= treasurer_tag());
        assert(key.deep_view() =~= vault@);
        assert(bump_seed.deep_view() =~= seq![bump]);
        assert(seeds@[0] == tag && seeds@[1] == key && seeds@[2] == bump_seed);
        assert(seeds.deep_view() =~= treasurer_seeds_spec(*vault, bump));
    }
    seeds
}

} // verus!
