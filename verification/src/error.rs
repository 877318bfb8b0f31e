//! The reasons for which a request is rejected.

use vstd::prelude::*;
use anchor_lang::prelude::ProgramError;

verus! {

/// The error type of the runtime's system calls. Nothing is known of a value
/// of it here; it is only carried to the caller.
#[verifier::external_type_specification]
#[verifier::external_body]
pub struct ExProgramError(ProgramError);

/// Why the controller rejected a request.
#[derive(Clone, Copy, PartialEq, Eq, Structural, Debug, Hash)]
pub enum ErrorCode {
    /// A required co-signer is missing.
    NotEnoughApprovals,
    /// The presented owner is not the owner of the account.
    InvalidOwner,
    /// The presented guardian is not the guardian of the account.
    InvalidGuardian,
    /// The new owner gave no proof of possession.
    InvalidSignature,
    /// The owner is already replacing the guardian.
    EscapeGuardianInProgress,
    /// The escape to complete is not the one under way.
    InvalidEscapeType,
    /// The waiting time of the escape is not over.
    SecurityPeriodNotElapsed,
    /// There is no escape to cancel.
    NoEscapeInProgress,
    /// The security period asked for is not above zero.
    InvalidSecurityPeriod,
}

impl ErrorCode {
    /// The text that describes this error.
    pub open spec fn message_text(self) -> Seq<char> {
        match self {
            ErrorCode::NotEnoughApprovals => "Not enough approvals"@,
            ErrorCode::InvalidOwner => "Invalid owner"@,
            ErrorCode::InvalidGuardian => "Invalid guardian"@,
            ErrorCode::InvalidSignature => "Invalid signature"@,
            ErrorCode::EscapeGuardianInProgress => "Escape guardian in progress"@,
            ErrorCode::InvalidEscapeType => "Invalid escape type"@,
            ErrorCode::SecurityPeriodNotElapsed => "Security period not elapsed"@,
            ErrorCode::NoEscapeInProgress => "No escape in progress"@,
            ErrorCode::InvalidSecurityPeriod => "Invalid security period"@,
        }
    }

    /// The text that describes this error, for a log or a reply.
    pub fn message(&self) -> (r: &'static str)
        ensures
            r@ == self.message_text(),
    {
        match self {
            ErrorCode::NotEnoughApprovals => "Not enough approvals",
            ErrorCode::InvalidOwner => "Invalid owner",
            ErrorCode::InvalidGuardian => "Invalid guardian",
            ErrorCode::InvalidSignature => "Invalid signature",
            ErrorCode::EscapeGuardianInProgress => "Escape guardian in progress",
            ErrorCode::InvalidEscapeType => "Invalid escape type",
            ErrorCode::SecurityPeriodNotElapsed => "Security period not elapsed",
            ErrorCode::NoEscapeInProgress => "No escape in progress",
            ErrorCode::InvalidSecurityPeriod => "Invalid security period",
        }
    }
}

/// Why an escape operation that reads the clock itself did not succeed.
#[derive(Debug, PartialEq, Eq)]
pub enum EscapeError {
    /// The clock could not be read; the request was not looked at.
    ClockUnavailable(ProgramError),
    /// The clock was read and the controller rejected the request.
    Rejected(ErrorCode),
}

} // verus!
