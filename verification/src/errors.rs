use vstd::prelude::*;

verus! {

/// The number that the program's own error codes start from.
pub const ERROR_CODE_OFFSET: u32 = 6000;

/// The errors that the program itself raises.
#[derive(Clone, Copy, Debug, PartialEq, Eq, Structural)]
pub enum ErrorCode {
    /// The vault holds fewer tokens than were asked for.
    NotEnoughTokensFromTheVault,
    /// The user was rewarded before.
    AlreadyPaid,
}

impl ErrorCode {
    /// The error's number: its position in the enum after the offset.
    pub open spec fn spec_code(self) -> u32 {
        match self {
            ErrorCode::NotEnoughTokensFromTheVault => 6000,
            ErrorCode::AlreadyPaid => 6001,
        }
    }

    /// The error's number, as the program reports it.
    pub fn code(&self) -> (c: u32)
        ensures
            c == self.spec_code(),
            c >= ERROR_CODE_OFFSET,
            *self == ErrorCode::NotEnoughTokensFromTheVault ==> c == 6000,
            *self == ErrorCode::AlreadyPaid ==> c == 6001,
    {
        match self {
            ErrorCode::NotEnoughTokensFromTheVault => ERROR_CODE_OFFSET,
            ErrorCode::AlreadyPaid => ERROR_CODE_OFFSET + 1,
        }
    }

    /// The error's name.
    pub fn name(&self) -> (s: &'static str)
        ensures
            match self {
                ErrorCode::NotEnoughTokensFromTheVault => s@ == "NotEnoughTokensFromTheVault"@,
                ErrorCode::AlreadyPaid => s@ == "AlreadyPaid"@,
            },
    {
        match self {
            ErrorCode::NotEnoughTokensFromTheVault => "NotEnoughTokensFromTheVault",
            ErrorCode::AlreadyPaid => "AlreadyPaid",
        }
    }

    /// The message that the program shows for the error.
    pub fn message(&self) -> (s: &'static str)
        ensures
            match self {
                ErrorCode::NotEnoughTokensFromTheVault => s@ == "Not enough tokens from the vault."@,
                ErrorCode::AlreadyPaid => s@ == "Already paid"@,
            },
    {
        match self {
            ErrorCode::NotEnoughTokensFromTheVault => "Not enough tokens from the vault.",
            ErrorCode::AlreadyPaid => "Already paid",
        }
    }
}

} // verus!
