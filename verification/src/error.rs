//! What can go wrong while an array is converted to its single-chunk form.

use vstd::prelude::*;

verus! {

/// A reason to abandon a conversion. Every one of them is final: nothing is
/// retried and no partial result is produced.
#[derive(Debug, Clone, Copy, PartialEq, Eq, Structural)]
pub enum DechunkError {
    /// The descriptor's compression level is not one of 1 to 9.
    UnsupportedLevel,
    /// The descriptor's shuffle mode is not 0, 1 or 2.
    UnsupportedShuffle,
    /// The descriptor names a codec that is not on the allow-list.
    UnsupportedCodec,
    /// The array's length or its chunk length is zero.
    EmptyDimension,
    /// The dtype string has fewer than three characters.
    DtypeTooShort,
    /// The dtype string does not end in a byte width that the machine can hold.
    DtypeWidth,
    /// The array's logical size is larger than what its chunks decode to.
    MissingData,
}

} // verus!
