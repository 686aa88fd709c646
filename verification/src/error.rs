//! The failures an invocation can end with.

use vstd::prelude::*;

verus! {

/// Why an invocation was aborted. Every failure aborts the whole invocation
/// and leaves the accounts as they were.
#[derive(Clone, Copy, Debug, PartialEq, Eq, Structural)]
pub enum ProgramError {
    /// The instruction buffer is too short or its payload does not decode.
    MalformedInput,
    /// The discriminator names no operation.
    UnknownOperation,
    /// The supplied counter account is not the one derived for the owner.
    AddressMismatch,
    /// The account list is shorter than the operation requires.
    MissingAccount,
    /// The required authority did not sign.
    MissingSignature,
    /// The stored bytes are not a counter record.
    CorruptState,
    /// Increasing the counter would leave the range of its value.
    ArithmeticOverflow,
    /// The allocation or the delegation service reported a failure.
    ExternalServiceFailure,
}

} // verus!
