//! A driver for the streaming operations of the rsync protocol.
//!
//! Given an old file, the protocol makes a compact *signature* of it; given a
//! new file and a signature, a *delta*; given the old file and a delta, the
//! new file again. The sums, the search for matching blocks and the stream
//! formats are the work of a transform engine that runs in steps and never
//! waits. This crate is what stands between that engine and a caller who
//! wants a blocking stream of bytes: it decides when to read the source, what
//! to hand to the engine, what to make of its answers, and when an operation
//! is over.
//!
//! The crate makes no call to the engine and reads no stream. It tells its
//! runner what to do and is told what came of it, so every decision in it is
//! a function of plain values. It holds no byte of a stream either: input
//! stays in its source until the engine has taken it, and output is written
//! by the engine where the caller wants it.
//!
//! * [`job`] holds the driver of one job and the handle of a job;
//! * [`buffers`] the window that one step of the engine works on;
//! * [`stream`] the three operations, from their beginning to their end;
//! * [`bridge`] the engine's reads of the basis while it applies a delta;
//! * [`error`] the errors, and how a status of the engine becomes one;
//! * [`raw`] the numbers that the engine and the crate agree on;
//! * [`laws`] what holds of a driver however it is run.

pub mod bridge;
pub mod buffers;
pub mod error;
pub mod job;
pub mod laws;
pub mod raw;
pub mod stream;

pub use crate::bridge::{BasisReply, BasisRequest};
pub use crate::buffers::{Buffers, RawBuffers};
pub use crate::error::{Error, ErrorKind, IoError};
pub use crate::job::{Advance, Job, JobDriver, Mode, Request};
pub use crate::stream::{
    Delta, DeltaLoad, DeltaStart, Patch, Signature, SignatureStart, SignatureType, Sumset,
};
