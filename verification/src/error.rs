//! The decode-failure taxonomy.
//!
//! Every failure of the decoder is returned to the caller as one of these
//! values; the encoder never fails on a well-formed command.

use vstd::prelude::*;

verus! {

/// A typed decode failure. Decoding a command buffer either yields a
/// fully-populated command or exactly one of these.
#[derive(Clone, Copy, Debug, PartialEq, Eq, Structural)]
pub enum PoolError {
    /// The buffer has no tag byte at all.
    EmptyBuffer,
    /// The tag byte is outside the registered set.
    UnknownOpcode,
    /// A fixed-width field's declared byte range exceeds the remaining buffer.
    TruncatedField,
    /// An enumeration byte is outside its defined codes.
    InvalidEnumerationValue,
    /// A nonzero-constrained field decoded to zero.
    ZeroConstraintViolated,
}

} // verus!
