//! The engine's access to the basis of a patch.
//!
//! While it applies a delta, the engine asks for ranges of the basis, in any
//! order, from inside a step. Each request names a position and a length; the
//! answer is a status and the length that was in fact read. The runner seeks
//! and reads; what to seek to and what to answer is decided here.

use vstd::prelude::*;

use crate::raw::{RS_DONE, RS_IO_ERROR};

verus! {

/// What the engine is told about a read of the basis.
#[derive(Clone, Copy, Debug, PartialEq, Eq)]
pub struct BasisReply {
    /// `RS_DONE` if the read went well, `RS_IO_ERROR` if it did not.
    pub status: i32,
    /// How many bytes of the region the read has filled.
    pub len: usize,
}

/// A request of the engine for a range of the basis.
#[derive(Clone, Copy, Debug, PartialEq, Eq)]
pub struct BasisRequest {
    /// Where the range begins, as the engine gave it.
    pub pos: i64,
    /// How many bytes the engine's region can take.
    pub len: usize,
}

impl BasisRequest {
    /// The position of the basis to seek to, counted from its start. The
    /// engine's position is a signed number; it is read as the unsigned
    /// number with the same bits, so that a negative one lies far beyond the
    /// end of any basis, where a read finds nothing.
    pub open spec fn spec_offset(self) -> u64 {
        if self.pos >= 0 {
            self.pos as u64
        } else {
            (self.pos + 0x1_0000_0000_0000_0000) as u64
        }
    }

    /// The answer to the engine, given what came of seeking and reading:
    /// `None` if either failed, else the number of bytes read. A read may be
    /// short, down to nothing at all past the end of the basis, and is
    /// reported as it is. A failure is reported as an I/O error; so is a read
    /// that claims more bytes than the region can take.
    pub open spec fn spec_reply(self, outcome: Option<usize>) -> BasisReply {
        match outcome {
            Some(n) if n <= self.len => BasisReply { status: RS_DONE, len: n },
            _ => BasisReply { status: RS_IO_ERROR, len: 0 },
        }
    }

    /// The request for `len` bytes from `pos` on.
    pub fn new(pos: i64, len: usize) -> (request: BasisRequest)
        ensures
            request == (BasisRequest { pos, len }),
    {
        BasisRequest { pos, len }
    }

    /// The position of the basis to seek to, counted from its start.
    pub fn offset(&self) -> (offset: u64)
        ensures
            offset == self.spec_offset(),
    {
        if self.pos >= 0 {
            self.pos as u64
        } else {
            let below: u64 = (-(self.pos + 1)) as u64;
            u64::MAX - below
        }
    }

    /// The answer to the engine, given what came of seeking and reading.
    pub fn reply(&self, outcome: Option<usize>) -> (reply: BasisReply)
        ensures
            reply == self.spec_reply(outcome),
    {
        match outcome {
            Some(n) if n <= self.len => BasisReply { status: RS_DONE, len: n },
            _ => BasisReply { status: RS_IO_ERROR, len: 0 },
        }
    }
}

} // verus!
