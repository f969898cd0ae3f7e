use vstd::prelude::*;

verus! {

/// Failures specific to the allow/block list program.
#[derive(Clone, Copy, Debug, PartialEq, Eq, Structural)]
pub enum ABLError {
    InvalidInstruction,
    InvalidAuthority,
    AccountBlocked,
    NotEnoughAccounts,
    InvalidAccountData,
    UninitializedAccount,
    InvalidSystemProgram,
    InvalidConfigAccount,
    AccountNotWritable,
    InvalidMint,
    InvalidExtraMetasAccount,
    ImmutableOwnerExtensionMissing,
    InvalidData,
    InvalidMintConfig,
    ListNotEmpty,
}

/// What an instruction reports to the host: a program-specific failure, or
/// one of the host's generic failures.
#[derive(Clone, Copy, Debug, PartialEq, Eq, Structural)]
pub enum ProgramError {
    Custom(ABLError),
    /// A checked counter or balance update left its range.
    ArithmeticOverflow,
    /// The opcode byte names no operation.
    InvalidInstructionData,
    /// The funding account cannot pay for an allocation.
    InsufficientFunds,
    /// An allocation targeted an account that already holds state.
    AccountAlreadyInUse,
    /// A size or rent parameter is outside what the host permits.
    InvalidArgument,
    /// No program address exists for the given seeds.
    InvalidSeeds,
    /// The paying account did not sign.
    MissingRequiredSignature,
}

impl From<ABLError> for ProgramError {
    fn from(e: ABLError) -> (r: ProgramError)
        ensures
            r == ProgramError::Custom(e),
    {
        ProgramError::Custom(e)
    }
}

impl vstd::std_specs::convert::FromSpecImpl<ABLError> for ProgramError {
    open spec fn obeys_from_spec() -> bool {
        true
    }

    open spec fn from_spec(e: ABLError) -> ProgramError {
        ProgramError::Custom(e)
    }
}

} // verus!
