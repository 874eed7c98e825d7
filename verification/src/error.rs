use vstd::prelude::*;

verus! {

/// Why an instruction was rejected. Every rejection is final for the
/// invocation: nothing is retried and nothing is partially applied.
#[derive(Clone, Copy, Debug, PartialEq, Eq, Structural)]
pub enum TipError {
    /// A required signer did not sign.
    MissingAuthority,
    /// The account passed as the configuration record is not at the derived address.
    InvalidRecordAddress,
    /// The configuration record has not been created yet.
    UninitializedRecord,
    /// The signer is not the administrator named in the record.
    NotAuthorized,
    /// The fee rate exceeds the permitted maximum.
    FeeTooHigh,
    /// A tip of zero was requested.
    ZeroAmount,
    /// The treasury token account differs from the one named in the record.
    TreasuryMismatch,
    /// The fee or a counter does not fit in 64 bits.
    ArithmeticOverflow,
    /// The opcode is unknown, or the payload is missing or too short.
    InvalidInstruction,
    /// The record's bytes do not parse.
    DecodeError,
    /// The account's data is too small to hold the record.
    EncodeError,
    /// Fewer accounts were passed than the instruction reads.
    NotEnoughAccountKeys,
    /// The transfer capability passed is not the token program.
    IncorrectProgramId,
}

} // verus!
