//! Verified decoding of FAT-family filesystem images: the boot-sector
//! geometry header, the derived FAT/root-directory/data region layout, and
//! the 32-byte records of the root directory area.
//!
//! The crate never performs I/O. Callers read bytes from wherever the image
//! lives and hand them in as plain buffers; every function here is a pure,
//! panic-free transformation of those bytes with a verified contract.

use vstd::prelude::*;

pub mod bootsector;
pub mod dir;
pub mod fat;

verus! {

/// Failures reported by the decoders in this crate.
#[derive(Clone, Copy, Debug, PartialEq, Eq, Structural)]
pub enum FatError {
    /// The source held fewer bytes than the requested header or region.
    TruncatedImage,
    /// A geometry field was malformed: a zero divisor or a derived sector
    /// count that is negative or does not fit in 32 bits.
    InvalidGeometry,
    /// A name field held an invalid byte sequence under the chosen codepage.
    DecodeError,
}

/// How invalid byte sequences in name fields are treated.
#[derive(Clone, Copy, Debug, PartialEq, Eq, Structural)]
pub enum DecodePolicy {
    /// Fail fast: report `DecodeError` on the first invalid sequence.
    Strict,
    /// Replace each invalid sequence with U+FFFD and keep going.
    Lossy,
}

/// The unsigned little-endian 16-bit value stored at byte offset `off`.
pub open spec fn le16(s: Seq<u8>, off: int) -> int {
    s[off] + 0x100 * s[off + 1]
}

/// The unsigned little-endian 32-bit value stored at byte offset `off`.
pub open spec fn le32(s: Seq<u8>, off: int) -> int {
    s[off] + 0x100 * s[off + 1] + 0x10000 * s[off + 2] + 0x1000000 * s[off + 3]
}

} // verus!
