//! Buffer contracts for calling an LZ4 block codec through its C interface.
//!
//! The codec reads and writes raw memory and trusts the sizes it is given.
//! This crate holds what has to be right before such a call is made and after
//! it returns: how large a buffer must be, which lengths the codec can be
//! told at all, what a result code means, and which bytes of the destination
//! may be read afterwards.

pub mod frame;
pub mod inplace;
pub mod invoke;
pub mod outcome;
pub mod sizing;

pub use frame::{LZ4FErrorCode, LZ4F_VERSION};
pub use inplace::InplaceBuffer;
pub use invoke::{bound_call, bound_size, check_compress, check_decompress};
pub use invoke::{compress_call, decompress_call};
pub use invoke::{CodecCall, Violation, MAX_SIZE_HINT, REJECTED};
pub use outcome::{produced_bytes, Outcome};
pub use sizing::{LZ4_CompressInplaceBufferSize, LZ4_DecompressInplaceBufferSize};
pub use sizing::{INPLACE_SLACK, LZ4_DISTANCE_MAX};
