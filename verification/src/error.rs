//! The ways in which a call can be refused.

use vstd::prelude::*;

verus! {

/// Why a call was refused. A refused call leaves every account as it was.
#[derive(Clone, Copy, Debug, PartialEq, Eq, Structural)]
pub enum ErrorCode {
    /// The caller is not the identity that the call asks for.
    InvalidOwner,
    /// Fewer allies than the threshold have signed.
    NotEnoughSigners,
    /// A transaction that an owner has signed cannot be deleted.
    TransactionAlreadySigned,
    /// A counter would pass its largest value.
    Overflow,
    /// A transaction can be deleted only by the owner that created it.
    UnableToDelete,
    /// The transaction has been executed before.
    AlreadyExecuted,
    /// The threshold is not one that the allies can reach.
    InvalidThreshold,
}

impl ErrorCode {
    /// The text shown for each error.
    pub open spec fn spec_message(self) -> Seq<char> {
        match self {
            ErrorCode::InvalidOwner => "The given owner is not part of this social_recovery."@,
            ErrorCode::NotEnoughSigners => "Not enough allies signed this transaction."@,
            ErrorCode::TransactionAlreadySigned =>
                "Cannot delete a transaction that has been signed by an owner."@,
            ErrorCode::Overflow => "Overflow when adding."@,
            ErrorCode::UnableToDelete => "Cannot delete a transaction the owner did not create."@,
            ErrorCode::AlreadyExecuted => "The given transaction has already been executed."@,
            ErrorCode::InvalidThreshold =>
                "Threshold must be less than or equal to the number of allies."@,
        }
    }

    /// The message of this error.
    pub fn message(&self) -> (text: &'static str)
        ensures
            text@ == self.spec_message(),
    {
        match self {
            ErrorCode::InvalidOwner => "The given owner is not part of this social_recovery.",
            ErrorCode::NotEnoughSigners => "Not enough allies signed this transaction.",
            ErrorCode::TransactionAlreadySigned =>
                "Cannot delete a transaction that has been signed by an owner.",
            ErrorCode::Overflow => "Overflow when adding.",
            ErrorCode::UnableToDelete => "Cannot delete a transaction the owner did not create.",
            ErrorCode::AlreadyExecuted => "The given transaction has already been executed.",
            ErrorCode::InvalidThreshold =>
                "Threshold must be less than or equal to the number of allies.",
        }
    }
}

} // verus!
