//! What a safe entry point decides before it hands two byte views to the codec.
//!
//! The codec takes every length as a signed 32-bit integer. A view that is
//! longer than that cannot be described to it, and the call is turned down
//! here, before any foreign code runs.

use crate::outcome::Outcome;
use libc::c_int;
use vstd::prelude::*;

verus! {

/// Largest length that the codec's size arguments can express.
pub const MAX_SIZE_HINT: usize = 0x7FFF_FFFF;

/// Result code of a call that was turned down before it reached the codec.
pub const REJECTED: c_int = -1;

/// Whether a length can be handed to the codec as it is.
pub open spec fn representable(len: nat) -> bool {
    len <= MAX_SIZE_HINT
}

/// Why a call was turned down before it reached the codec.
#[derive(Clone, Copy, Debug, PartialEq, Eq, Structural)]
pub enum Violation {
    /// The source is longer than the codec's size arguments can express.
    SourceTooLarge,
    /// The destination is longer than the codec's size arguments can express.
    DestinationTooLarge,
    /// There is something to compress and no room at all to write to.
    NoDestination,
}

/// The two size arguments of one codec call.
#[derive(Clone, Copy, Debug, PartialEq, Eq, Structural)]
pub struct CodecCall {
    /// Number of bytes that the codec may read.
    pub source_size: c_int,
    /// Number of bytes that the codec may write.
    pub dest_capacity: c_int,
}

/// The size arguments for views of the given lengths, once both were found
/// representable.
pub open spec fn call_of(source_len: nat, dest_len: nat) -> CodecCall {
    CodecCall { source_size: source_len as c_int, dest_capacity: dest_len as c_int }
}

/// The decision on a compression of `source_len` bytes into room for
/// `dest_len`: the source is looked at first, then the destination.
pub open spec fn compress_plan(source_len: nat, dest_len: nat) -> Result<CodecCall, Violation> {
    if !representable(source_len) {
        Err(Violation::SourceTooLarge)
    } else if !representable(dest_len) {
        Err(Violation::DestinationTooLarge)
    } else if source_len > 0 && dest_len == 0 {
        Err(Violation::NoDestination)
    } else {
        Ok(call_of(source_len, dest_len))
    }
}

/// The decision on a decompression of `source_len` bytes into room for
/// `dest_len`. A destination without room is let through: the encoding of
/// the empty payload is one byte long and decompresses into nothing.
pub open spec fn decompress_plan(source_len: nat, dest_len: nat) -> Result<CodecCall, Violation> {
    if !representable(source_len) {
        Err(Violation::SourceTooLarge)
    } else if !representable(dest_len) {
        Err(Violation::DestinationTooLarge)
    } else {
        Ok(call_of(source_len, dest_len))
    }
}

/// The decision on asking the codec for the worst-case compressed size of
/// `source_len` bytes.
pub open spec fn bound_plan(source_len: nat) -> Result<c_int, Violation> {
    if representable(source_len) {
        Ok(source_len as c_int)
    } else {
        Err(Violation::SourceTooLarge)
    }
}

impl Violation {
    /// The result code that stands for this violation. It is negative, so a
    /// caller who only looks at the sign sees a failed call.
    pub fn result_code(self) -> (code: c_int)
        ensures
            code == REJECTED,
            code < 0,
            Outcome::of(code as int) == Outcome::Failure,
    {
        REJECTED
    }
}

impl CodecCall {
    /// Both sizes are lengths: neither is negative.
    pub open spec fn wf(self) -> bool {
        self.source_size >= 0 && self.dest_capacity >= 0
    }
}

/// Decides on a compression by the two lengths alone.
pub fn check_compress(source_len: usize, dest_len: usize) -> (plan: Result<CodecCall, Violation>)
    ensures
        plan == compress_plan(source_len as nat, dest_len as nat),
        plan is Ok <==> {
            &&& representable(source_len as nat)
            &&& representable(dest_len as nat)
            &&& (source_len > 0 ==> dest_len > 0)
        },
        plan matches Ok(call) ==> call.wf() && call.source_size == source_len
            && call.dest_capacity == dest_len,
{
    if source_len > MAX_SIZE_HINT {
        Err(Violation::SourceTooLarge)
    } else if dest_len > MAX_SIZE_HINT {
        Err(Violation::DestinationTooLarge)
    } else if source_len > 0 && dest_len == 0 {
        Err(Violation::NoDestination)
    } else {
        Ok(CodecCall { source_size: source_len as c_int, dest_capacity: dest_len as c_int })
    }
}

/// Decides on a decompression by the two lengths alone.
pub fn check_decompress(source_len: usize, dest_len: usize) -> (plan: Result<
    CodecCall,
    Violation,
>)
    ensures
        plan == decompress_plan(source_len as nat, dest_len as nat),
        plan is Ok <==> representable(source_len as nat) && representable(dest_len as nat),
        plan matches Ok(call) ==> call.wf() && call.source_size == source_len
            && call.dest_capacity == dest_len,
{
    if source_len > MAX_SIZE_HINT {
        Err(Violation::SourceTooLarge)
    } else if dest_len > MAX_SIZE_HINT {
        Err(Violation::DestinationTooLarge)
    } else {
        Ok(CodecCall { source_size: source_len as c_int, dest_capacity: dest_len as c_int })
    }
}

/// Decides on the compression of `src` into `dst`. Both sizes are taken from
/// the views themselves, so neither can disagree with the memory behind it.
pub fn compress_call(src: &[u8], dst: &[u8]) -> (plan: Result<CodecCall, Violation>)
    ensures
        plan == compress_plan(src@.len(), dst@.len()),
        plan is Ok <==> {
            &&& representable(src@.len())
            &&& representable(dst@.len())
            &&& (src@.len() > 0 ==> dst@.len() > 0)
        },
        plan matches Ok(call) ==> call.wf() && call.source_size == src@.len()
            && call.dest_capacity == dst@.len(),
{
    check_compress(src.len(), dst.len())
}

/// Decides on the decompression of `src` into `dst`. Both sizes are taken
/// from the views themselves.
pub fn decompress_call(src: &[u8], dst: &[u8]) -> (plan: Result<CodecCall, Violation>)
    ensures
        plan == decompress_plan(src@.len(), dst@.len()),
        plan is Ok <==> representable(src@.len()) && representable(dst@.len()),
        plan matches Ok(call) ==> call.wf() && call.source_size == src@.len()
            && call.dest_capacity == dst@.len(),
{
    check_decompress(src.len(), dst.len())
}

/// Decides on asking the codec for the worst-case compressed size of
/// `source_len` bytes, and gives the size argument of that question.
pub fn bound_call(source_len: usize) -> (plan: Result<c_int, Violation>)
    ensures
        plan == bound_plan(source_len as nat),
        plan is Ok <==> representable(source_len as nat),
        plan matches Ok(size) ==> size == source_len,
{
    if source_len > MAX_SIZE_HINT {
        Err(Violation::SourceTooLarge)
    } else {
        Ok(source_len as c_int)
    }
}

/// The size that the answer to a bound question stands for: the codec's
/// answer where it gave one, and zero where the question was turned down or
/// the answer is negative.
pub open spec fn bound_of(answer: Result<c_int, Violation>) -> usize {
    match answer {
        Ok(code) => if code >= 0 {
            code as usize
        } else {
            0
        },
        Err(_) => 0,
    }
}

/// Reads the answer to a bound question: the codec's own answer behind `Ok`,
/// or the violation for which it was never asked.
pub fn bound_size(answer: Result<c_int, Violation>) -> (size: usize)
    ensures
        size == bound_of(answer),
        answer matches Ok(code) ==> (code >= 0 ==> size == code),
{
    match answer {
        Ok(code) => if code >= 0 {
            code as usize
        } else {
            0
        },
        Err(_) => 0,
    }
}

/// The empty payload is never turned down: nothing can be compressed into any
/// representable room, and any representable input can be decompressed into
/// no room at all.
pub proof fn lemma_empty_payload_admitted(len: nat)
    requires
        representable(len),
    ensures
        compress_plan(0, len) == Ok::<CodecCall, Violation>(call_of(0, len)),
        decompress_plan(len, 0) == Ok::<CodecCall, Violation>(call_of(len, 0)),
{
}

} // verus!
