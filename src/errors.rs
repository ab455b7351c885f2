//! The ways an escrow operation can be refused.
use vstd::prelude::*;

verus! {

/// Why an operation was refused. A refused operation changes nothing.
#[derive(Clone, Copy, Debug, PartialEq, Eq, Structural)]
pub enum EscrowError {
    /// The payer holds less than the record's amount, or the record holds
    /// some value but less than its amount.
    InsufficientBalance,
    /// The caller is not the record's initializer, or the account to be paid
    /// is not the record's receiver.
    Unauthorized,
    /// The record has already been settled.
    AlreadyReleased,
    /// The record holds nothing while its amount is positive.
    NotFunded,
    /// A record for this (initializer, receiver) pair exists already.
    AlreadyExists,
}

} // verus!
