use vstd::prelude::*;

verus! {

/// The ways a key-agreement input can be rejected.
#[derive(Clone, Copy, PartialEq, Eq, Structural, Debug)]
pub enum EcdhError {
    /// An input byte sequence is not exactly 32 bytes long.
    InvalidLength,
    /// A byte sequence does not decompress to a valid Edwards point, or a
    /// Montgomery u-coordinate has no Edwards preimage for the requested
    /// sign bit.
    InvalidPoint,
}

} // verus!
