//! The failure taxonomy shared by every stream transition.

use vstd::prelude::*;

verus! {

/// Symbolic failure kind surfaced by a stream transition.
///
/// Every transition evaluates all of its checks before any state change, and
/// the first failing check aborts the whole transition; the variant names the
/// check that failed.
#[derive(Clone, Copy, Debug, PartialEq, Eq, Structural)]
pub enum ErrorCode {
    /// The stream has been deactivated; employee operations and top-ups are over.
    StreamInactive,
    /// The caller of an employee-only operation is not the stream's employee.
    UnauthorizedEmployee,
    /// The caller of an employer-only operation is not the stream's employer.
    UnauthorizedEmployer,
    /// The requested amount exceeds what has vested and not yet been withdrawn.
    InsufficientBalance,
    /// The employee showed activity within the inactivity window, so the
    /// emergency path is not open.
    EmployeeStillActive,
    /// The employer's lock period has not expired yet.
    EmployerLockActive,
    /// A counter update would overflow its fixed-width representation.
    MathOverflow,
    /// The stream is still active and cannot be closed.
    StreamStillActive,
    /// The escrow still holds funds, so the stream cannot be closed.
    VaultNotEmpty,
    /// The clock reading ran backwards relative to a stored timestamp.
    InvalidTimestamp,
    /// The asset does not use the fixed fractional precision this ledger requires.
    UnsupportedAsset,
    /// The escrow holds less than the recorded state says it owes: prior
    /// accounting is broken, and the condition is fatal.
    VaultBalanceInvariantViolated,
    /// An externally supplied holding account does not match the stream's
    /// recorded owner or asset.
    InvalidExternalAccount,
}

impl ErrorCode {
    /// The stable human-readable message for this failure kind.
    pub open spec fn message_spec(self) -> Seq<char> {
        match self {
            ErrorCode::StreamInactive => "This stream is no longer active"@,
            ErrorCode::UnauthorizedEmployee => "Only the employee can perform this action"@,
            ErrorCode::UnauthorizedEmployer => "Only the employer can perform this action"@,
            ErrorCode::InsufficientBalance => "Insufficient balance available for withdrawal"@,
            ErrorCode::EmployeeStillActive => "Employee is still active, cannot perform emergency withdrawal"@,
            ErrorCode::EmployerLockActive => "Employer lock period has not expired yet"@,
            ErrorCode::MathOverflow => "Mathematical operation overflow"@,
            ErrorCode::StreamStillActive => "Stream is still active and cannot be closed"@,
            ErrorCode::VaultNotEmpty => "Vault must be empty before closing stream"@,
            ErrorCode::InvalidTimestamp => "Invalid timestamp detected"@,
            ErrorCode::UnsupportedAsset => "Asset does not use the supported fractional precision"@,
            ErrorCode::VaultBalanceInvariantViolated => "Vault balance is below the recorded obligation"@,
            ErrorCode::InvalidExternalAccount => "Token account does not match the stream's owner or asset"@,
        }
    }

    /// A human-readable description of the failure, stable across releases.
    pub fn message(&self) -> (r: &'static str)
        ensures
            r@ == self.message_spec(),
    {
        match self {
            ErrorCode::StreamInactive => "This stream is no longer active",
            ErrorCode::UnauthorizedEmployee => "Only the employee can perform this action",
            ErrorCode::UnauthorizedEmployer => "Only the employer can perform this action",
            ErrorCode::InsufficientBalance => "Insufficient balance available for withdrawal",
            ErrorCode::EmployeeStillActive => "Employee is still active, cannot perform emergency withdrawal",
            ErrorCode::EmployerLockActive => "Employer lock period has not expired yet",
            ErrorCode::MathOverflow => "Mathematical operation overflow",
            ErrorCode::StreamStillActive => "Stream is still active and cannot be closed",
            ErrorCode::VaultNotEmpty => "Vault must be empty before closing stream",
            ErrorCode::InvalidTimestamp => "Invalid timestamp detected",
            ErrorCode::UnsupportedAsset => "Asset does not use the supported fractional precision",
            ErrorCode::VaultBalanceInvariantViolated => "Vault balance is below the recorded obligation",
            ErrorCode::InvalidExternalAccount => "Token account does not match the stream's owner or asset",
        }
    }
}

} // verus!
