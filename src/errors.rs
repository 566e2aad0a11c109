use vstd::prelude::*;

verus! {

/// The failures that the registry's own rules report.
#[derive(Clone, Copy, Debug, PartialEq, Eq, Structural)]
pub enum SkillChainError {
    Unauthorized,
    InvalidValidatorSignature,
    ValidatorNotActive,
    InvalidSkillScore,
    MaxSkillsReached,
    InsufficientEscrowFunds,
    EscrowAlreadyDistributed,
    InvalidSkillLevel,
    ArithmeticOverflow,
}

/// Custom error codes are numbered upwards from this offset, in declaration order.
pub const ERROR_CODE_OFFSET: u32 = 6000;

impl SkillChainError {
    pub open spec fn index(&self) -> u32 {
        match self {
            SkillChainError::Unauthorized => 0,
            SkillChainError::InvalidValidatorSignature => 1,
            SkillChainError::ValidatorNotActive => 2,
            SkillChainError::InvalidSkillScore => 3,
            SkillChainError::MaxSkillsReached => 4,
            SkillChainError::InsufficientEscrowFunds => 5,
            SkillChainError::EscrowAlreadyDistributed => 6,
            SkillChainError::InvalidSkillLevel => 7,
            SkillChainError::ArithmeticOverflow => 8,
        }
    }

    /// The numeric code under which the error is surfaced to the caller.
    pub fn code(&self) -> (r: u32)
        ensures
            r == ERROR_CODE_OFFSET + self.index(),
    {
        let i: u32 = match self {
            SkillChainError::Unauthorized => 0,
            SkillChainError::InvalidValidatorSignature => 1,
            SkillChainError::ValidatorNotActive => 2,
            SkillChainError::InvalidSkillScore => 3,
            SkillChainError::MaxSkillsReached => 4,
            SkillChainError::InsufficientEscrowFunds => 5,
            SkillChainError::EscrowAlreadyDistributed => 6,
            SkillChainError::InvalidSkillLevel => 7,
            SkillChainError::ArithmeticOverflow => 8,
        };
        ERROR_CODE_OFFSET + i
    }

    /// The human-readable message of the error.
    pub fn message(&self) -> &'static str {
        match self {
            SkillChainError::Unauthorized => "Unauthorized: Only authority can perform this action",
            SkillChainError::InvalidValidatorSignature => "Invalid validator signature",
            SkillChainError::ValidatorNotActive => "Validator not active",
            SkillChainError::InvalidSkillScore => "Skill score out of range (0-100)",
            SkillChainError::MaxSkillsReached => "Maximum skills limit reached",
            SkillChainError::InsufficientEscrowFunds => "Insufficient escrow funds",
            SkillChainError::EscrowAlreadyDistributed => "Escrow already distributed",
            SkillChainError::InvalidSkillLevel => "Invalid skill level",
            SkillChainError::ArithmeticOverflow => "Arithmetic overflow",
        }
    }
}

/// Why an instruction was refused: a rule of the registry, or a condition on
/// the accounts handed to it.
#[derive(Clone, Copy, Debug, PartialEq, Eq, Structural)]
pub enum Error {
    SkillChain(SkillChainError),
    /// An account that the instruction creates exists already.
    AccountAlreadyInUse,
    /// A record does not sit at the address derived for the signer.
    ConstraintSeeds,
}

} // verus!
