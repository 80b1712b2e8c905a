use vstd::prelude::*;

verus! {

/// The program's own failures, reported to the runtime as custom error
/// codes (the variant's position, starting at 0).
#[derive(Debug, Clone, Copy, PartialEq, Eq, Structural)]
pub enum CrowdfundError {
    /// deadline has not been reached yet
    DeadlineNotReached,
    /// deadline has already passed
    DeadlineHasPassed,
    /// campaign did not reach its goal
    GoalNotReached,
    /// campaign already reached its goal so refund is not allowed
    GoalAlreadyReached,
    /// funds were already withdrawn
    AlreadyClaimed,
    /// caller is not the campaign creator
    NotCreator,
    /// caller is not the donor of the record
    NotDonor,
    /// vault PDA does not match expected address
    InvalidVaultPda,
    /// contribution PDA does not match expected address
    InvalidContribPda,
    /// donor has nothing left to refund
    NothingToRefund,
    /// integer overflow in lamport math
    ArithmeticOverflow,
}

/// The custom error code of each failure: its position in the declaration.
pub open spec fn error_code(e: CrowdfundError) -> u32 {
    match e {
        CrowdfundError::DeadlineNotReached => 0,
        CrowdfundError::DeadlineHasPassed => 1,
        CrowdfundError::GoalNotReached => 2,
        CrowdfundError::GoalAlreadyReached => 3,
        CrowdfundError::AlreadyClaimed => 4,
        CrowdfundError::NotCreator => 5,
        CrowdfundError::NotDonor => 6,
        CrowdfundError::InvalidVaultPda => 7,
        CrowdfundError::InvalidContribPda => 8,
        CrowdfundError::NothingToRefund => 9,
        CrowdfundError::ArithmeticOverflow => 10,
    }
}

impl CrowdfundError {
    /// The custom error code under which the runtime reports this failure.
    pub fn code(&self) -> (c: u32)
        ensures
            c == error_code(*self),
    {
        match self {
            CrowdfundError::DeadlineNotReached => 0,
            CrowdfundError::DeadlineHasPassed => 1,
            CrowdfundError::GoalNotReached => 2,
            CrowdfundError::GoalAlreadyReached => 3,
            CrowdfundError::AlreadyClaimed => 4,
            CrowdfundError::NotCreator => 5,
            CrowdfundError::NotDonor => 6,
            CrowdfundError::InvalidVaultPda => 7,
            CrowdfundError::InvalidContribPda => 8,
            CrowdfundError::NothingToRefund => 9,
            CrowdfundError::ArithmeticOverflow => 10,
        }
    }
}

/// Distinct failures have distinct codes.
pub proof fn lemma_error_code_injective(a: CrowdfundError, b: CrowdfundError)
    ensures
        error_code(a) == error_code(b) <==> a == b,
{
}

/// Why an instruction failed: one of the program's own failures, or one of
/// the runtime's standard failures that the program raises.
#[derive(Debug, Clone, PartialEq, Eq)]
pub enum ProcessError {
    /// A failure of the program's own.
    Crowdfund(CrowdfundError),
    /// The instruction data does not decode.
    InvalidInstructionData,
    /// Fewer accounts than the instruction needs.
    NotEnoughAccountKeys,
    /// An account that must sign did not.
    MissingRequiredSignature,
    /// The account given as the system program is not it.
    IncorrectProgramId,
    /// An amount or goal of zero.
    InvalidArgument,
    /// The campaign account already holds lamports or data.
    AccountAlreadyInitialized,
    /// The campaign account is not owned by this program.
    IllegalOwner,
    /// The vault holds nothing above its rent-exempt minimum.
    InsufficientFunds,
    /// Account data that does not decode, with the decoder's message.
    BorshIo(String),
    /// No bump seed gives a program address off the curve (the runtime
    /// aborts the program in this case).
    NoProgramAddress,
}

/// [`ProcessError`] as a value of specifications.
pub enum Failure {
    Crowdfund(CrowdfundError),
    InvalidInstructionData,
    NotEnoughAccountKeys,
    MissingRequiredSignature,
    IncorrectProgramId,
    InvalidArgument,
    AccountAlreadyInitialized,
    IllegalOwner,
    InsufficientFunds,
    BorshIo(Seq<char>),
    NoProgramAddress,
}

impl View for ProcessError {
    type V = Failure;

    open spec fn view(&self) -> Failure {
        match self {
            ProcessError::Crowdfund(e) => Failure::Crowdfund(*e),
            ProcessError::InvalidInstructionData => Failure::InvalidInstructionData,
            ProcessError::NotEnoughAccountKeys => Failure::NotEnoughAccountKeys,
            ProcessError::MissingRequiredSignature => Failure::MissingRequiredSignature,
            ProcessError::IncorrectProgramId => Failure::IncorrectProgramId,
            ProcessError::InvalidArgument => Failure::InvalidArgument,
            ProcessError::AccountAlreadyInitialized => Failure::AccountAlreadyInitialized,
            ProcessError::IllegalOwner => Failure::IllegalOwner,
            ProcessError::InsufficientFunds => Failure::InsufficientFunds,
            ProcessError::BorshIo(m) => Failure::BorshIo(m@),
            ProcessError::NoProgramAddress => Failure::NoProgramAddress,
        }
    }
}

} // verus!
