use anchor_lang::prelude::ProgramError;
use vstd::prelude::*;

verus! {

/// `ProgramError` of `anchor_lang`: the host's own error type. Nothing is
/// claimed of what a value of it holds; it is only carried from the host to
/// the caller.
#[verifier::external_type_specification]
#[verifier::external_body]
pub struct ExProgramError(ProgramError);

/// The business rules an operation can break. Each names one violated rule.
#[derive(Clone, Copy, Debug, PartialEq, Eq, Structural)]
pub enum CustomError {
    NotVerified,
    NoCollateral,
    EventCancelled,
    EventAlreadyConfirmed,
    EventFull,
    EventClosed,
    AlreadyVerified,
    InsufficientCollateral,
}

impl CustomError {
    /// The sentence shown to a caller for this failure.
    pub fn message(&self) -> (text: &'static str)
        ensures
            text@ == match *self {
                CustomError::NotVerified => "Organizer is not verified."@,
                CustomError::NoCollateral => "No collateral to refund."@,
                CustomError::EventCancelled => "Event is cancelled."@,
                CustomError::EventAlreadyConfirmed => "Event already confirmed."@,
                CustomError::EventFull => "Event has reached max capacity."@,
                CustomError::EventClosed => "Event deadline has passed."@,
                CustomError::AlreadyVerified => "Organiser is already initialized"@,
                CustomError::InsufficientCollateral =>
                    "Collateral is below the minimum threshold."@,
            },
    {
        match self {
            CustomError::NotVerified => "Organizer is not verified.",
            CustomError::NoCollateral => "No collateral to refund.",
            CustomError::EventCancelled => "Event is cancelled.",
            CustomError::EventAlreadyConfirmed => "Event already confirmed.",
            CustomError::EventFull => "Event has reached max capacity.",
            CustomError::EventClosed => "Event deadline has passed.",
            CustomError::AlreadyVerified => "Organiser is already initialized",
            CustomError::InsufficientCollateral => "Collateral is below the minimum threshold.",
        }
    }
}

/// Why an operation did not commit.
#[derive(Debug, PartialEq, Eq)]
pub enum HandlerError {
    /// A business rule was broken.
    Custom(CustomError),
    /// The host failed a request made on behalf of the operation.
    Program(ProgramError),
    /// A text field is longer than the bytes its record reserves for it.
    TextTooLong,
}

} // verus!
