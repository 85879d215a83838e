//! Names that callers of the codec's frame interface share with it.

use libc::{c_uint, size_t};
use vstd::prelude::*;

verus! {

/// A status value of the frame interface. It is only ever handed back to the
/// codec, which knows the name of the error that it stands for.
pub type LZ4FErrorCode = size_t;

/// The version of the frame interface that a caller announces to the codec.
pub const LZ4F_VERSION: c_uint = 100;

} // verus!
