use vstd::prelude::*;

verus! {

/// Failure of a decode step. Every variant is fatal: the whole transaction
/// decode aborts and nothing is returned besides the error.
///
/// `offset` is the byte position in the input at which the offending field
/// starts (for `UnexpectedEndOfBuffer`, the position at which the read was
/// attempted).
#[derive(Debug, Clone, Copy, PartialEq, Eq, Structural)]
pub enum DecodeError {
    /// Fewer bytes remain than a required field needs.
    UnexpectedEndOfBuffer { offset: usize },
    /// An instruction opcode byte outside the supported set.
    UnknownOpcode { offset: usize, value: u8 },
    /// A substate type tag outside the supported set.
    UnknownSubstateType { offset: usize, value: u8 },
    /// An address type byte outside the supported set.
    UnknownDiscriminant { offset: usize, value: u8 },
    /// A reserved byte that must be zero held the given non-zero value.
    ReservedByteViolation { offset: usize, value: u8 },
    /// A small-domain field (a boolean) held a value outside its legal set.
    InvalidEnumValue { offset: usize, value: u8 },
    /// A string field whose payload is not valid UTF-8.
    InvalidEncoding { offset: usize },
    /// A substate size envelope whose declared length differs from the
    /// number of bytes the substate actually occupied.
    SizeMismatch { offset: usize, declared: u16, consumed: usize },
}

} // verus!
