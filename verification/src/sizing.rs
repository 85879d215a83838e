//! Buffer sizing policy: how large one backing buffer must be for the codec to
//! work in place, reading its input from the tail of the buffer while it writes
//! its output from the front.
//!
//! The worst-case size of a compressed block is not computed here. Only the
//! codec knows it, and the caller asks the codec for it.

use vstd::prelude::*;

verus! {

/// Largest backward distance that a compressed block can refer to.
///
/// While the codec compresses in place it may still read up to this many bytes
/// behind its read cursor, so its write cursor has to trail by at least as much.
pub const LZ4_DISTANCE_MAX: usize = 65535;

/// Bytes added to every in-place buffer on top of the direction's own margin.
pub const INPLACE_SLACK: usize = 32;

/// Free bytes in front of right-aligned data that is compressed in place.
pub open spec fn compress_inplace_margin() -> nat {
    (LZ4_DISTANCE_MAX + INPLACE_SLACK) as nat
}

/// Size of the backing buffer for compressing `decompressed` bytes in place.
pub open spec fn compress_inplace_size(decompressed: nat) -> nat {
    decompressed + compress_inplace_margin()
}

/// Free bytes in front of right-aligned data that is decompressed in place.
pub open spec fn decompress_inplace_margin(compressed: nat) -> nat {
    compressed / 256 + INPLACE_SLACK as nat
}

/// Size of the backing buffer for decompressing `compressed` bytes in place.
pub open spec fn decompress_inplace_size(compressed: nat) -> nat {
    compressed + decompress_inplace_margin(compressed)
}

/// Size of the single buffer in which `decompressed` bytes can be compressed
/// in place: the data is put at the buffer's tail and the codec writes from the
/// buffer's start.
///
/// The sum has to fit in `usize`.
#[allow(non_snake_case)]
#[inline]
pub fn LZ4_CompressInplaceBufferSize(decompressed: usize) -> (size: usize)
    requires
        decompressed + 65535 + 32 <= usize::MAX,
    ensures
        size == decompressed + 65535 + 32,
        size == compress_inplace_size(decompressed as nat),
{
    decompressed + LZ4_DISTANCE_MAX + INPLACE_SLACK
}

/// Size of the single buffer in which `compressed` bytes can be decompressed
/// in place: a 256th of the input, rounded down, and 32 bytes on top of it.
///
/// The sum has to fit in `usize`.
#[allow(non_snake_case)]
#[inline]
pub fn LZ4_DecompressInplaceBufferSize(compressed: usize) -> (size: usize)
    requires
        compressed + compressed / 256 + 32 <= usize::MAX,
    ensures
        size == compressed + (compressed >> 8) + 32,
        size == decompress_inplace_size(compressed as nat),
{
    assert(compressed >> 8 == compressed / 256) by (bit_vector);
    compressed + (compressed >> 8) + INPLACE_SLACK
}

} // verus!
