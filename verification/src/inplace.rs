//! One backing buffer for a codec call that works in place.
//!
//! The data sits at the tail of the buffer and the codec writes from the
//! buffer's start, so the write cursor trails the read cursor by the margin
//! in front of the data. The buffer is built here, together with the place
//! where the data starts, so that no caller has to do that arithmetic.

use crate::invoke::{call_of, compress_plan, decompress_plan, representable};
use crate::invoke::{CodecCall, Violation, MAX_SIZE_HINT};
use crate::sizing::{compress_inplace_margin, compress_inplace_size};
use crate::sizing::{decompress_inplace_margin, decompress_inplace_size};
use crate::sizing::{LZ4_CompressInplaceBufferSize, LZ4_DecompressInplaceBufferSize};
use crate::sizing::{INPLACE_SLACK, LZ4_DISTANCE_MAX};
use libc::c_int;
use vstd::prelude::*;

verus! {

/// `count` zero bytes.
pub open spec fn zeros(count: nat) -> Seq<u8> {
    Seq::new(count, |i: int| 0u8)
}

/// A buffer of `size` bytes with `data` at its tail and zeros in front of it.
pub open spec fn right_aligned(data: Seq<u8>, size: nat) -> Seq<u8>
    recommends
        data.len() <= size,
{
    zeros((size - data.len()) as nat) + data
}

/// A backing buffer with data right-aligned in it.
///
/// The data never starts beyond the buffer's end, and the whole buffer is
/// short enough for the codec to be told its length.
pub struct InplaceBuffer {
    backing: Vec<u8>,
    offset: usize,
}

impl View for InplaceBuffer {
    type V = Seq<u8>;

    /// Every byte of the buffer, margin first.
    closed spec fn view(&self) -> Seq<u8> {
        self.backing@
    }
}

impl InplaceBuffer {
    #[verifier::type_invariant]
    spec fn inv(self) -> bool {
        &&& self.offset <= self.backing@.len()
        &&& self.backing@.len() <= MAX_SIZE_HINT
    }

    /// Index of the first byte of the data.
    pub closed spec fn start(self) -> nat {
        self.offset as nat
    }

    /// The data: what the buffer holds from `start` on.
    pub open spec fn payload(self) -> Seq<u8> {
        self@.skip(self.start() as int)
    }

    /// Puts `data` at the tail of a new buffer that is long enough to
    /// compress it in place. There is no such buffer when its length would
    /// be more than the codec can be told.
    pub fn for_compression(data: &[u8]) -> (buffer: Option<InplaceBuffer>)
        ensures
            buffer is Some <==> representable(compress_inplace_size(data@.len())),
            buffer matches Some(b) ==> {
                &&& b@ == right_aligned(data@, compress_inplace_size(data@.len()))
                &&& b.start() == compress_inplace_margin()
                &&& b.payload() == data@
            },
    {
        let len: usize = data.len();
        if len > MAX_SIZE_HINT - (LZ4_DISTANCE_MAX + INPLACE_SLACK) {
            return None;
        }
        let size: usize = LZ4_CompressInplaceBufferSize(len);
        let backing = fill_right_aligned(data, size);
        proof {
            lemma_right_aligned(data@, size as nat);
        }
        Some(InplaceBuffer { backing, offset: size - len })
    }

    /// Puts `compressed` at the tail of a new buffer that is long enough to
    /// decompress it in place. There is no such buffer when its length would
    /// be more than the codec can be told.
    pub fn for_decompression(compressed: &[u8]) -> (buffer: Option<InplaceBuffer>)
        ensures
            buffer is Some <==> representable(decompress_inplace_size(compressed@.len())),
            buffer matches Some(b) ==> {
                &&& b@ == right_aligned(compressed@, decompress_inplace_size(compressed@.len()))
                &&& b.start() == decompress_inplace_margin(compressed@.len())
                &&& b.payload() == compressed@
            },
    {
        let len: usize = compressed.len();
        if len > MAX_SIZE_HINT {
            return None;
        }
        let size: usize = LZ4_DecompressInplaceBufferSize(len);
        if size > MAX_SIZE_HINT {
            return None;
        }
        let backing = fill_right_aligned(compressed, size);
        proof {
            lemma_right_aligned(compressed@, size as nat);
        }
        Some(InplaceBuffer { backing, offset: size - len })
    }

    /// Length of the whole buffer.
    pub fn len(&self) -> (len: usize)
        ensures
            len == self@.len(),
            representable(len as nat),
    {
        proof {
            use_type_invariant(self);
        }
        self.backing.len()
    }

    /// Index of the first byte of the data.
    pub fn offset(&self) -> (offset: usize)
        ensures
            offset == self.start(),
            offset <= self@.len(),
    {
        proof {
            use_type_invariant(self);
        }
        self.offset
    }

    /// The whole buffer.
    pub fn as_slice(&self) -> (bytes: &[u8])
        ensures
            bytes@ == self@,
    {
        self.backing.as_slice()
    }

    /// The data at the buffer's tail.
    pub fn data(&self) -> (bytes: &[u8])
        ensures
            bytes@ == self.payload(),
            bytes@.len() == self@.len() - self.start(),
    {
        proof {
            use_type_invariant(self);
        }
        vstd::slice::slice_subrange(self.backing.as_slice(), self.offset, self.backing.len())
    }

    /// The size arguments for compressing the data into this very buffer. No
    /// such call is ever turned down.
    pub fn compress_call(&self) -> (call: CodecCall)
        ensures
            compress_plan(self.payload().len(), self@.len()) == Ok::<CodecCall, Violation>(call),
            call == call_of(self.payload().len(), self@.len()),
            call.wf(),
    {
        proof {
            use_type_invariant(self);
        }
        let source_len: usize = self.backing.len() - self.offset;
        CodecCall { source_size: source_len as c_int, dest_capacity: self.backing.len() as c_int }
    }

    /// The size arguments for decompressing the data into this very buffer.
    /// No such call is ever turned down.
    pub fn decompress_call(&self) -> (call: CodecCall)
        ensures
            decompress_plan(self.payload().len(), self@.len()) == Ok::<CodecCall, Violation>(
                call,
            ),
            call == call_of(self.payload().len(), self@.len()),
            call.wf(),
    {
        proof {
            use_type_invariant(self);
        }
        let source_len: usize = self.backing.len() - self.offset;
        CodecCall { source_size: source_len as c_int, dest_capacity: self.backing.len() as c_int }
    }

    /// Gives up the buffer and the index at which its data starts.
    pub fn into_parts(self) -> (parts: (Vec<u8>, usize))
        ensures
            parts.0@ == self@,
            parts.1 == self.start(),
            parts.1 <= parts.0@.len(),
            representable(parts.0@.len()),
    {
        proof {
            use_type_invariant(&self);
        }
        (self.backing, self.offset)
    }
}

/// Builds the buffer that `right_aligned` describes.
fn fill_right_aligned(data: &[u8], size: usize) -> (backing: Vec<u8>)
    requires
        data@.len() <= size,
    ensures
        backing@ == right_aligned(data@, size as nat),
        backing@.len() == size,
{
    let margin: usize = size - data.len();
    let mut backing: Vec<u8> = Vec::with_capacity(size);
    let mut filled: usize = 0;
    while filled < margin
        invariant
            filled <= margin,
            backing@ =~= zeros(filled as nat),
        decreases margin - filled,
    {
        backing.push(0u8);
        filled += 1;
    }
    let mut copied: usize = 0;
    while copied < data.len()
        invariant
            copied <= data@.len(),
            margin + data@.len() == size,
            backing@ =~= zeros(margin as nat) + data@.take(copied as int),
        decreases data@.len() - copied,
    {
        backing.push(data[copied]);
        copied += 1;
    }
    assert(data@.take(copied as int) =~= data@);
    backing
}

/// Data that is put right-aligned into a buffer is found again behind the
/// margin, byte for byte, and the margin holds nothing but zeros.
pub proof fn lemma_right_aligned(data: Seq<u8>, size: nat)
    requires
        data.len() <= size,
    ensures
        right_aligned(data, size).len() == size,
        right_aligned(data, size).skip(size - data.len()) == data,
        right_aligned(data, size).take(size - data.len()) == zeros((size - data.len()) as nat),
{
    let margin = (size - data.len()) as nat;
    assert(right_aligned(data, size).skip(margin as int) =~= data);
    assert(right_aligned(data, size).take(margin as int) =~= zeros(margin));
}

} // verus!
