use vstd::prelude::*;

verus! {

/// Every way an operation on the registry can fail.
#[derive(Clone, Copy, Debug, PartialEq, Eq, Structural)]
pub enum ErrorCode {
    /// An attribute kind tag outside `0..=5`.
    InvalidAttributeKind,
    /// An attribute kind modifier tag outside `0..=2`.
    InvalidAttributeKindModifier,
    /// An account kind tag outside `0..=2`.
    InvalidAccountKind,
    /// A mark attribute tag outside `0..=3`.
    InvalidMarkAttribute,
    /// A name whose UTF-8 encoding is longer than a name slot.
    InvalidNameLength,
    /// The signer is not the stored authority of the record.
    Unauthorized,
    /// A record already lives at the address of the record being created.
    AccountAlreadyInitialized,
    /// No record lives at a referenced address.
    AccountNotFound,
    /// The record at a referenced address is of another kind.
    AccountDidNotDeserialize,
    /// A referenced record does not belong to the ancestors passed with it.
    AncestorMismatch,
    /// A child count would drop below zero.
    CounterUnderflow,
    /// A child count would exceed its range.
    CounterOverflow,
    /// No address can be derived from the seeds.
    InvalidSeeds,
    /// The bump given is not the one that derives the record's address.
    InvalidBump,
}

impl ErrorCode {
    /// A short human-readable description of the error.
    pub fn message(&self) -> &'static str {
        match self {
            ErrorCode::InvalidAttributeKind => "Invalid attribute kind",
            ErrorCode::InvalidAttributeKindModifier => "Invalid attribute modifier",
            ErrorCode::InvalidAccountKind => "Invalid account kind",
            ErrorCode::InvalidMarkAttribute => "Invalid mark attribute",
            ErrorCode::InvalidNameLength => "Name longer than 32 bytes",
            ErrorCode::Unauthorized => "Signer is not the record's authority",
            ErrorCode::AccountAlreadyInitialized => "Account already initialized",
            ErrorCode::AccountNotFound => "Account not found",
            ErrorCode::AccountDidNotDeserialize => "Account is of another kind",
            ErrorCode::AncestorMismatch => "Account does not belong to the given ancestors",
            ErrorCode::CounterUnderflow => "Child count underflow",
            ErrorCode::CounterOverflow => "Child count overflow",
            ErrorCode::InvalidSeeds => "No address can be derived from the seeds",
            ErrorCode::InvalidBump => "Bump does not derive the address",
        }
    }
}

} // verus!
