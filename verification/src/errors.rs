use vstd::prelude::*;

verus! {

/// The errors of the program's own rules.
#[derive(Clone, Copy, Debug, PartialEq, Eq, Structural)]
pub enum ErrorCode {
    TitleTooLong,
    DescriptionTooLong,
    GoalTooSmall,
    DeadlineInPast,
    InvalidDeadline,
    CampaignNotActive,
    DeadlinePassed,
    InvalidDonationAmount,
    MathOverflow,
    NotCreator,
    InsufficientVaultBalance,
    NotAbandoned,
    AlreadyRefunded,
    InvalidDonor,
}

/// The number that the runtime reports for an error: its position in the
/// list above, counted from 6000.
pub open spec fn error_number(e: ErrorCode) -> u32 {
    match e {
        ErrorCode::TitleTooLong => 6000,
        ErrorCode::DescriptionTooLong => 6001,
        ErrorCode::GoalTooSmall => 6002,
        ErrorCode::DeadlineInPast => 6003,
        ErrorCode::InvalidDeadline => 6004,
        ErrorCode::CampaignNotActive => 6005,
        ErrorCode::DeadlinePassed => 6006,
        ErrorCode::InvalidDonationAmount => 6007,
        ErrorCode::MathOverflow => 6008,
        ErrorCode::NotCreator => 6009,
        ErrorCode::InsufficientVaultBalance => 6010,
        ErrorCode::NotAbandoned => 6011,
        ErrorCode::AlreadyRefunded => 6012,
        ErrorCode::InvalidDonor => 6013,
    }
}

/// The text that comes with an error.
pub open spec fn error_message(e: ErrorCode) -> Seq<char> {
    match e {
        ErrorCode::TitleTooLong => "Title must be between 1 and 50 characters"@,
        ErrorCode::DescriptionTooLong => "Description must be between 1 and 1000 characters"@,
        ErrorCode::GoalTooSmall => "Goal amount must be at least 1 SOL"@,
        ErrorCode::DeadlineInPast => "Deadline must be in the future"@,
        ErrorCode::InvalidDeadline => "Deadline must be between 7 and 30 days from now"@,
        ErrorCode::CampaignNotActive => "Campaign is no longer active"@,
        ErrorCode::DeadlinePassed => "The deadline for this campaign has already passed"@,
        ErrorCode::InvalidDonationAmount => "Donation amount must be greater than 0"@,
        ErrorCode::MathOverflow => "Math overflow occurred"@,
        ErrorCode::NotCreator => "Only the creator can withdraw funds"@,
        ErrorCode::InsufficientVaultBalance => "Insufficient balance in the vault"@,
        ErrorCode::NotAbandoned => "Campaign is not yet abandoned (must wait 7 days after deadline)"@,
        ErrorCode::AlreadyRefunded => "Donation already refunded"@,
        ErrorCode::InvalidDonor => "Donor account mismatch"@,
    }
}

impl ErrorCode {
    /// The number that the runtime reports for this error.
    pub fn code(&self) -> (n: u32)
        ensures
            n == error_number(*self),
    {
        match self {
            ErrorCode::TitleTooLong => 6000,
            ErrorCode::DescriptionTooLong => 6001,
            ErrorCode::GoalTooSmall => 6002,
            ErrorCode::DeadlineInPast => 6003,
            ErrorCode::InvalidDeadline => 6004,
            ErrorCode::CampaignNotActive => 6005,
            ErrorCode::DeadlinePassed => 6006,
            ErrorCode::InvalidDonationAmount => 6007,
            ErrorCode::MathOverflow => 6008,
            ErrorCode::NotCreator => 6009,
            ErrorCode::InsufficientVaultBalance => 6010,
            ErrorCode::NotAbandoned => 6011,
            ErrorCode::AlreadyRefunded => 6012,
            ErrorCode::InvalidDonor => 6013,
        }
    }

    /// The text that comes with this error.
    pub fn message(&self) -> (text: &'static str)
        ensures
            text@ == error_message(*self),
    {
        match self {
            ErrorCode::TitleTooLong => "Title must be between 1 and 50 characters",
            ErrorCode::DescriptionTooLong => "Description must be between 1 and 1000 characters",
            ErrorCode::GoalTooSmall => "Goal amount must be at least 1 SOL",
            ErrorCode::DeadlineInPast => "Deadline must be in the future",
            ErrorCode::InvalidDeadline => "Deadline must be between 7 and 30 days from now",
            ErrorCode::CampaignNotActive => "Campaign is no longer active",
            ErrorCode::DeadlinePassed => "The deadline for this campaign has already passed",
            ErrorCode::InvalidDonationAmount => "Donation amount must be greater than 0",
            ErrorCode::MathOverflow => "Math overflow occurred",
            ErrorCode::NotCreator => "Only the creator can withdraw funds",
            ErrorCode::InsufficientVaultBalance => "Insufficient balance in the vault",
            ErrorCode::NotAbandoned => "Campaign is not yet abandoned (must wait 7 days after deadline)",
            ErrorCode::AlreadyRefunded => "Donation already refunded",
            ErrorCode::InvalidDonor => "Donor account mismatch",
        }
    }
}

/// Why an instruction fails: one of the program's own errors, or an account
/// constraint that the instruction declares on the accounts it is given.
#[derive(Clone, Copy, Debug, PartialEq, Eq, Structural)]
pub enum ProgramError {
    /// One of the program's own errors.
    Custom(ErrorCode),
    /// An account is not at the address that the instruction requires.
    ConstraintAddress,
    /// A stored key does not match the account that it must name.
    ConstraintHasOne,
}

/// Distinct errors are reported under distinct numbers.
pub proof fn law_error_numbers_are_distinct(a: ErrorCode, b: ErrorCode)
    ensures
        error_number(a) == error_number(b) <==> a == b,
{
}

} // verus!
