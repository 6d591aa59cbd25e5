//! The numbers shared with the transform engine: the status codes of its
//! calls and the tags of its stream formats.

use vstd::prelude::*;

verus! {

/// The job is complete.
pub const RS_DONE: i32 = 0;

/// The job cannot go on without more input or more room for output.
pub const RS_BLOCKED: i32 = 1;

/// The job is still running.
pub const RS_RUNNING: i32 = 2;

/// A self-test of the engine was skipped.
pub const RS_TEST_SKIPPED: i32 = 77;

/// A read or write on a stream failed.
pub const RS_IO_ERROR: i32 = 100;

/// A command line could not be understood.
pub const RS_SYNTAX_ERROR: i32 = 101;

/// The engine ran out of memory.
pub const RS_MEM_ERROR: i32 = 102;

/// The input stopped in the middle of an item.
pub const RS_INPUT_ENDED: i32 = 103;

/// The stream does not begin with a known tag.
pub const RS_BAD_MAGIC: i32 = 104;

/// The stream asks for something the engine does not offer.
pub const RS_UNIMPLEMENTED: i32 = 105;

/// The stream holds a value that cannot be right.
pub const RS_CORRUPT: i32 = 106;

/// The engine found itself in a state it should never reach.
pub const RS_INTERNAL_ERROR: i32 = 107;

/// An argument of the call was out of range.
pub const RS_PARAM_ERROR: i32 = 108;

/// The tag at the head of a delta stream.
pub const RS_DELTA_MAGIC: i32 = 0x7273_0236;

/// The tag at the head of a signature whose strong sums are MD4.
pub const RS_MD4_SIG_MAGIC: i32 = 0x7273_0136;

/// The tag at the head of a signature whose strong sums are BLAKE2.
pub const RS_BLAKE2_SIG_MAGIC: i32 = 0x7273_0137;

/// The block length of a signature made without options.
pub const RS_DEFAULT_BLOCK_LEN: usize = 2048;

} // verus!
