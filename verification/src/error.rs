//! Errors of the program: the custom `SenshiError` codes and the full set of
//! errors a processor can answer with.
use vstd::prelude::*;

verus! {

/// Errors specific to this program; each carries a fixed custom error code.
#[derive(Debug, Clone, Copy, PartialEq, Eq, Structural)]
pub enum SenshiError {
    /// Encountered an arithmetic under/overflow error.
    ArithmeticError,
    /// Season is not open for entries.
    SeasonNotOpen,
    /// Invalid season status transition.
    InvalidTransition,
    /// Target epoch has not been reached yet.
    EpochNotReached,
    /// Season epoch has not ended yet.
    EpochNotEnded,
    /// Season is not settled.
    NotSettled,
    /// Reward has already been claimed.
    AlreadyClaimed,
    /// No reward assigned to this entry.
    NoReward,
}

/// The custom error code of each `SenshiError`, in declaration order.
pub open spec fn spec_error_code(e: SenshiError) -> u32 {
    match e {
        SenshiError::ArithmeticError => 0,
        SenshiError::SeasonNotOpen => 1,
        SenshiError::InvalidTransition => 2,
        SenshiError::EpochNotReached => 3,
        SenshiError::EpochNotEnded => 4,
        SenshiError::NotSettled => 5,
        SenshiError::AlreadyClaimed => 6,
        SenshiError::NoReward => 7,
    }
}

impl SenshiError {
    /// The number carried by `ProgramError::Custom` for this error.
    pub fn code(&self) -> (r: u32)
        ensures
            r == spec_error_code(*self),
    {
        match self {
            SenshiError::ArithmeticError => 0,
            SenshiError::SeasonNotOpen => 1,
            SenshiError::InvalidTransition => 2,
            SenshiError::EpochNotReached => 3,
            SenshiError::EpochNotEnded => 4,
            SenshiError::NotSettled => 5,
            SenshiError::AlreadyClaimed => 6,
            SenshiError::NoReward => 7,
        }
    }
}

/// Every way a processor can refuse an instruction: the runtime's generic
/// program errors that this program raises, and its own custom errors.
#[derive(Debug, Clone, Copy, PartialEq, Eq, Structural)]
pub enum ProcessError {
    /// The instruction data is too short or carries an unknown tag.
    InvalidInstructionData,
    /// An account is not at its expected address or holds malformed data.
    InvalidAccountData,
    /// The instruction was not given exactly the accounts it names.
    NotEnoughAccountKeys,
    /// A required signer did not sign, or is not the recorded authority.
    MissingRequiredSignature,
    /// A program account is not the expected program.
    IncorrectProgramId,
    /// No bump seed gives an off-curve address for the seeds.
    InvalidSeeds,
    /// One of this program's own errors.
    Custom(SenshiError),
}

} // verus!
