use vstd::prelude::*;

verus! {

/// Why an operation on the card-game ledger was refused.
#[derive(Debug, Clone, Copy, PartialEq, Eq, Structural)]
pub enum ContractError {
    /// The caller is not the identity that the operation requires.
    Unauthorized,
    /// An identity given for the configuration failed validation.
    InvalidAddress,
    /// The request id is longer than 64 characters.
    RequestIdTooLong,
    /// A pending job with this request id already exists.
    DuplicateRequest,
    /// No pending job exists for this request id.
    UnknownRequest,
    /// The configuration has not been set.
    NotInitialized,
    /// Delivered randomness is empty, or its first element is not a 32-byte seed
    /// written as 64 hexadecimal digits.
    InvalidRandomness,
    /// The stored randomness is not a 64-digit hexadecimal string.
    CorruptState,
}

} // verus!
