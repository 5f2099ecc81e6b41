use vstd::prelude::*;

verus! {

/// Width of the length prefix in front of variable-length fields
/// (byte arrays, UTF-8 strings, virtual substate identifiers).
#[derive(Debug, Clone, Copy, PartialEq, Eq, Structural)]
pub enum LengthPrefix {
    One,
    Two,
}

impl LengthPrefix {
    /// Number of bytes the prefix occupies.
    pub open spec fn width(self) -> int {
        match self {
            LengthPrefix::One => 1,
            LengthPrefix::Two => 2,
        }
    }
}

/// The wire-format generation, threaded through every decoder.
///
/// The format evolved in place: newer generations widened length prefixes,
/// added a mandatory zero byte after each substate type tag, and put a
/// two-byte size envelope in front of substates carried by `UP`
/// instructions. Whether a mismatching envelope is rejected is a separate
/// strictness switch, since one generation carries the envelope without
/// checking it.
#[derive(Debug, Clone, Copy, PartialEq, Eq, Structural)]
pub struct Format {
    /// Width of length prefixes for variable-length fields.
    pub length_prefix: LengthPrefix,
    /// Whether each substate starts with a reserved byte that must be zero.
    pub reserved_byte: bool,
    /// Whether an `UP` instruction carries a two-byte substate size envelope.
    pub size_prefix: bool,
    /// Whether a size envelope whose declared length differs from the bytes
    /// actually consumed is rejected as `SizeMismatch`.
    pub strict_size: bool,
}

impl Format {
    /// The newest format generation seen on the wire: two-byte length
    /// prefixes, reserved bytes, and a substate size envelope that is
    /// carried but not checked.
    pub fn current() -> (f: Format)
        ensures
            f == (Format {
                length_prefix: LengthPrefix::Two,
                reserved_byte: true,
                size_prefix: true,
                strict_size: false,
            }),
    {
        Format {
            length_prefix: LengthPrefix::Two,
            reserved_byte: true,
            size_prefix: true,
            strict_size: false,
        }
    }

    /// Like [`Format::current`], but a substate size envelope whose declared
    /// length does not match the bytes consumed is rejected.
    pub fn current_strict() -> (f: Format)
        ensures
            f == (Format {
                length_prefix: LengthPrefix::Two,
                reserved_byte: true,
                size_prefix: true,
                strict_size: true,
            }),
    {
        Format {
            length_prefix: LengthPrefix::Two,
            reserved_byte: true,
            size_prefix: true,
            strict_size: true,
        }
    }
}

} // verus!
