use vstd::prelude::*;

verus! {

/// Why decoding a block failed. Both kinds end the decode: there is no partial result.
#[derive(Debug, Clone, Copy, PartialEq, Eq, Structural)]
pub enum ParseError {
    /// The block does not start with the fixed eight-byte tag.
    MagicMismatch,
    /// A step needed more bytes than the buffer still holds.
    Incomplete,
}

} // verus!
