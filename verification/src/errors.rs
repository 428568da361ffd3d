//! What an operation reports when it refuses to act.

use vstd::prelude::*;

verus! {

/// The reason an operation was refused.
#[derive(Clone, Copy, Debug, PartialEq, Eq, Structural)]
pub enum ErrorCode {
    /// The caller is not the manager's admin.
    NotAdmin,
    /// The caller is neither the manager's admin nor its operator.
    NotAdminOrOperator,
    /// The swap's amplification factor is outside the manager's bounds.
    InitialAmpOutOfRange,
    /// The swap's fees are not the manager's initial fees.
    InitialFeesMismatch,
    /// The swap's token mints are not in ascending order.
    SwapTokensNotSorted,
    /// The swap's two token mints are the same.
    SwapTokensCannotBeEqual,
    /// The fee account is neither of the pool's two fee accounts.
    InvalidFeeAccount,
    /// Two addresses that must agree differ.
    KeyMismatch,
    /// A condition on the supplied accounts does not hold.
    InvariantFailed,
    /// The pool counter cannot be increased.
    IntegerOverflow,
    /// The seeds and the nonce do not give the supplied address.
    InvalidSeeds,
}

/// The category of a refusal.
#[derive(Clone, Copy, Debug, PartialEq, Eq, Structural)]
pub enum Fault {
    /// A supplied account is not the one that the stored state implies.
    RelationshipMismatch,
    /// The caller does not hold the required role.
    AuthorizationDenied,
    /// The swap's parameters do not meet the manager's policy.
    PolicyViolation,
    /// An invariant of the registry would be broken.
    StateInvariantViolation,
    /// The service that a delegated call was sent to turned it down.
    ExternalServiceRejection,
}

impl ErrorCode {
    /// The category that this reason belongs to.
    pub open spec fn fault(self) -> Fault {
        match self {
            ErrorCode::NotAdmin | ErrorCode::NotAdminOrOperator => Fault::AuthorizationDenied,
            ErrorCode::InitialAmpOutOfRange
            | ErrorCode::InitialFeesMismatch
            | ErrorCode::SwapTokensNotSorted
            | ErrorCode::SwapTokensCannotBeEqual => Fault::PolicyViolation,
            ErrorCode::InvalidFeeAccount
            | ErrorCode::KeyMismatch
            | ErrorCode::InvariantFailed => Fault::RelationshipMismatch,
            ErrorCode::IntegerOverflow | ErrorCode::InvalidSeeds => Fault::StateInvariantViolation,
        }
    }

    /// The category that this reason belongs to.
    pub fn category(&self) -> (r: Fault)
        ensures
            r == self.fault(),
    {
        match self {
            ErrorCode::NotAdmin => Fault::AuthorizationDenied,
            ErrorCode::NotAdminOrOperator => Fault::AuthorizationDenied,
            ErrorCode::InitialAmpOutOfRange => Fault::PolicyViolation,
            ErrorCode::InitialFeesMismatch => Fault::PolicyViolation,
            ErrorCode::SwapTokensNotSorted => Fault::PolicyViolation,
            ErrorCode::SwapTokensCannotBeEqual => Fault::PolicyViolation,
            ErrorCode::InvalidFeeAccount => Fault::RelationshipMismatch,
            ErrorCode::KeyMismatch => Fault::RelationshipMismatch,
            ErrorCode::InvariantFailed => Fault::RelationshipMismatch,
            ErrorCode::IntegerOverflow => Fault::StateInvariantViolation,
            ErrorCode::InvalidSeeds => Fault::StateInvariantViolation,
        }
    }
}

} // verus!
