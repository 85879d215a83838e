//! The result code of a codec call, and the bytes that a caller may read
//! after it.
//!
//! A code that is not negative is the exact number of bytes that the codec
//! wrote. Any negative code means that the call failed; which negative value
//! it is carries no meaning.

use libc::c_int;
use vstd::prelude::*;
use vstd::slice::slice_subrange;

verus! {

/// How a codec call ended.
#[derive(Clone, Copy, Debug, PartialEq, Eq, Structural)]
pub enum Outcome {
    /// The call succeeded and produced this many bytes.
    Success(usize),
    /// The call failed. Nothing the destination holds may be read.
    Failure,
}

impl Outcome {
    /// The outcome that a result code stands for.
    pub open spec fn of(code: int) -> Outcome {
        if code >= 0 {
            Outcome::Success(code as usize)
        } else {
            Outcome::Failure
        }
    }

    /// Reads a result code.
    pub fn from_code(code: c_int) -> (outcome: Outcome)
        ensures
            outcome == Outcome::of(code as int),
            code >= 0 ==> outcome == Outcome::Success(code as usize) && code as usize == code,
            code < 0 ==> outcome == Outcome::Failure,
    {
        if code >= 0 {
            Outcome::Success(code as usize)
        } else {
            Outcome::Failure
        }
    }

    /// Whether the call succeeded.
    pub fn is_success(&self) -> (yes: bool)
        ensures
            yes == (*self is Success),
    {
        match self {
            Outcome::Success(_) => true,
            Outcome::Failure => false,
        }
    }

    /// The number of bytes produced, if the call succeeded.
    pub fn byte_count(&self) -> (count: Option<usize>)
        ensures
            count == match *self {
                Outcome::Success(n) => Some(n),
                Outcome::Failure => None::<usize>,
            },
    {
        match self {
            Outcome::Success(n) => Some(*n),
            Outcome::Failure => None,
        }
    }
}

/// The part of a destination that holds what a call produced, for a call
/// that ended with `code`.
pub open spec fn produced(dst: Seq<u8>, code: int) -> Option<Seq<u8>> {
    if 0 <= code <= dst.len() {
        Some(dst.take(code))
    } else {
        None
    }
}

/// The bytes that a call with result `code` produced in `dst`: its first
/// `code` bytes. After a failed call there are none to read, and none are
/// handed out; nor are any for a code that claims more bytes than `dst` holds.
pub fn produced_bytes(dst: &[u8], code: c_int) -> (bytes: Option<&[u8]>)
    ensures
        bytes is Some <==> 0 <= code <= dst@.len(),
        bytes matches Some(prefix) ==> prefix@ == dst@.take(code as int),
        code < 0 ==> bytes is None,
        produced(dst@, code as int) == match bytes {
            Some(prefix) => Some(prefix@),
            None => None::<Seq<u8>>,
        },
{
    if code < 0 {
        return None;
    }
    let count: usize = code as usize;
    if count > dst.len() {
        return None;
    }
    Some(slice_subrange(dst, 0, count))
}

/// After a failed call no byte of the destination is handed out, whatever the
/// destination holds and whichever negative value the code is.
pub proof fn lemma_failure_leaves_nothing_to_read(dst: Seq<u8>, code: int)
    requires
        code < 0,
    ensures
        Outcome::of(code) == Outcome::Failure,
        produced(dst, code) is None,
{
}

} // verus!
