//! Error taxonomy shared by the commitment types.

use vstd::prelude::*;

verus! {

/// Why a commitment could not be built or decoded.
#[derive(Clone, Copy, Debug, PartialEq, Eq, Structural)]
pub enum Error {
    /// The body is not exactly 32 bytes long (or the input holds no tag byte).
    InvalidLength,
    /// The tag byte is not one of the two that the variant admits.
    InvalidPrefix(u8),
    /// The text is not an even-length string of hexadecimal digits.
    MalformedHex,
    /// The source ended before the fixed-width encoding was complete.
    EndOfStream,
}

} // verus!
