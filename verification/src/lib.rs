//! A decoder for a versioned, length-prefixed binary transaction format:
//! a byte stream is parsed into an ordered sequence of typed instructions,
//! some of which embed typed substate records. Every decoder is specified
//! against a byte-level description of the wire format and proved to follow
//! it exactly, including which error each malformed input produces.

pub mod cursor;
pub mod error;
pub mod format;
pub mod substates;
pub mod transaction;
pub mod types;
