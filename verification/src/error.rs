//! Why a buffer could not be decoded.

use vstd::prelude::*;

verus! {

/// The outcome of a decode that yields no instruction.
#[derive(Debug, Clone, Copy, PartialEq, Eq, Structural)]
pub enum DecodeError {
    /// No supported instruction can be decoded from a buffer that starts
    /// with this byte: the byte opens no supported MOV encoding, or the
    /// buffer ends before the encoding does.
    Unsupported(u8),
    /// The buffer holds no byte at all.
    Empty,
}

} // verus!
