//! The errors of this crate, and how an engine status becomes one.

use vstd::prelude::*;
use vstd::std_specs::convert::FromSpecImpl;

use crate::raw::{
    RS_BAD_MAGIC, RS_BLOCKED, RS_CORRUPT, RS_INPUT_ENDED, RS_INTERNAL_ERROR, RS_IO_ERROR,
    RS_MEM_ERROR, RS_PARAM_ERROR, RS_SYNTAX_ERROR, RS_UNIMPLEMENTED,
};

verus! {

/// The class of an I/O failure.
#[derive(Clone, Copy, Debug, PartialEq, Eq)]
pub enum ErrorKind {
    /// The operation would have to wait.
    WouldBlock,
    /// A failure of no more precise class.
    Other,
    /// The input ended before the item did.
    UnexpectedEof,
    /// The data cannot be right.
    InvalidData,
    /// An argument was not acceptable.
    InvalidInput,
}

/// An I/O failure: its class and a message for people.
#[derive(Clone, Copy, Debug, PartialEq, Eq)]
pub struct IoError {
    /// The class of the failure.
    pub kind: ErrorKind,
    /// What went wrong, in words.
    pub message: &'static str,
}

/// Enumeration of all possible errors in this crate.
#[derive(Clone, Copy, Debug, PartialEq, Eq)]
pub enum Error {
    /// An IO error.
    Io(IoError),
    /// Out of memory.
    Mem,
    /// Bad magic number at start of stream.
    BadMagic,
    /// The feature is not available yet.
    Unimplemented,
    /// Probably a library bug.
    Internal,
    /// All the other error numbers.
    ///
    /// This error should never occur, as it is an indication of a bug.
    Unknown(i32),
}

/// The error that stands for an I/O failure of class `kind` with the text
/// `message`.
pub open spec fn spec_io_err(kind: ErrorKind, message: &'static str) -> Error {
    Error::Io(IoError { kind, message })
}

/// Builds the error for an I/O failure.
pub fn io_err(kind: ErrorKind, message: &'static str) -> (e: Error)
    ensures
        e == spec_io_err(kind, message),
{
    Error::Io(IoError { kind, message })
}

/// The error that a driver reports when the engine, driven without an output
/// buffer, cannot go on for want of one.
pub open spec fn no_output_error() -> Error {
    spec_io_err(ErrorKind::WouldBlock, "cannot consume input without an output buffer")
}

/// The error of a delta whose engine would not take the loaded signature.
pub open spec fn invalid_signature_error() -> Error {
    spec_io_err(ErrorKind::InvalidData, "invalid signature given")
}

/// The error that an engine status stands for. Every status has one. The
/// nine failures that the engine names keep their meaning: an I/O failure, a
/// syntax error, want of memory, input that ends too early, a bad magic
/// number, a feature that is not there, a corrupt stream, an internal fault
/// and a bad parameter. So does *blocked*. A syntax error and a corrupt
/// stream are both malformed input, and both of kind `InvalidData`. Any other
/// number is carried along as `Unknown`.
pub open spec fn error_of_status(status: i32) -> Error {
    if status == RS_BLOCKED {
        spec_io_err(ErrorKind::WouldBlock, "blocked waiting for more data")
    } else if status == RS_IO_ERROR {
        spec_io_err(ErrorKind::Other, "unknown IO error from librsync")
    } else if status == RS_SYNTAX_ERROR {
        spec_io_err(ErrorKind::InvalidData, "syntax error in stream")
    } else if status == RS_MEM_ERROR {
        Error::Mem
    } else if status == RS_INPUT_ENDED {
        spec_io_err(ErrorKind::UnexpectedEof, "unexpected end of input file")
    } else if status == RS_BAD_MAGIC {
        Error::BadMagic
    } else if status == RS_UNIMPLEMENTED {
        Error::Unimplemented
    } else if status == RS_CORRUPT {
        spec_io_err(ErrorKind::InvalidData, "unbelievable value in stream")
    } else if status == RS_INTERNAL_ERROR {
        Error::Internal
    } else if status == RS_PARAM_ERROR {
        spec_io_err(ErrorKind::InvalidInput, "bad parameter")
    } else {
        Error::Unknown(status)
    }
}

impl From<i32> for Error {
    /// Maps an engine status to the error it stands for.
    fn from(status: i32) -> (e: Error) {
        if status == RS_BLOCKED {
            io_err(ErrorKind::WouldBlock, "blocked waiting for more data")
        } else if status == RS_IO_ERROR {
            io_err(ErrorKind::Other, "unknown IO error from librsync")
        } else if status == RS_SYNTAX_ERROR {
            io_err(ErrorKind::InvalidData, "syntax error in stream")
        } else if status == RS_MEM_ERROR {
            Error::Mem
        } else if status == RS_INPUT_ENDED {
            io_err(ErrorKind::UnexpectedEof, "unexpected end of input file")
        } else if status == RS_BAD_MAGIC {
            Error::BadMagic
        } else if status == RS_UNIMPLEMENTED {
            Error::Unimplemented
        } else if status == RS_CORRUPT {
            io_err(ErrorKind::InvalidData, "unbelievable value in stream")
        } else if status == RS_INTERNAL_ERROR {
            Error::Internal
        } else if status == RS_PARAM_ERROR {
            io_err(ErrorKind::InvalidInput, "bad parameter")
        } else {
            Error::Unknown(status)
        }
    }
}

impl FromSpecImpl<i32> for Error {
    open spec fn obeys_from_spec() -> bool {
        true
    }

    open spec fn from_spec(status: i32) -> Error {
        error_of_status(status)
    }
}

/// The kind under which a byte stream reports the failure `e` of an
/// operation. A stream has one error type for all that can go wrong in it,
/// an I/O error with a kind and a cause. Whatever the engine fails with is
/// the cause of an error of kind `Other`, whatever its own class; only an
/// operation that would have to wait is of kind `WouldBlock`.
pub open spec fn stream_kind_of(e: Error) -> ErrorKind {
    match e {
        Error::Io(IoError { kind: ErrorKind::WouldBlock, .. }) => ErrorKind::WouldBlock,
        _ => ErrorKind::Other,
    }
}

/// The character that stands for `d`, a number below ten.
pub open spec fn digit(d: nat) -> char {
    seq!['0', '1', '2', '3', '4', '5', '6', '7', '8', '9'][d as int]
}

/// The decimal digits of `n`, the most significant first.
pub open spec fn decimal_digits(n: nat) -> Seq<char>
    decreases n,
{
    if n < 10 {
        seq![digit(n)]
    } else {
        decimal_digits(n / 10).push(digit(n % 10))
    }
}

/// `n` in decimal, with a minus sign in front where it is negative.
pub open spec fn decimal(n: int) -> Seq<char> {
    if n < 0 {
        seq!['-'] + decimal_digits((-n) as nat)
    } else {
        decimal_digits(n as nat)
    }
}

/// The text that describes `e` to a person.
pub open spec fn message_of(e: Error) -> Seq<char> {
    match e {
        Error::Io(io) => io.message@,
        Error::Mem => "out of memory"@,
        Error::BadMagic => "bad magic number given"@,
        Error::Unimplemented => "unimplemented feature"@,
        Error::Internal => "internal error"@,
        Error::Unknown(n) => "unknown error "@ + decimal(n as int) + " from native library"@,
    }
}

/// `format!` from std, on two texts with an integer between them. Not
/// verified: the claim is that `{}` writes a text as it is and an `i32` in
/// decimal, as std documents for `Display`.
#[verifier::external_body]
fn text_around_number(before: &str, n: i32, after: &str) -> (s: String)
    ensures
        s@ == before@ + decimal(n as int) + after@,
{
    format!("{}{}{}", before, n, after)
}

impl Error {
    /// The kind under which a byte stream reports this error when an
    /// operation fails with it: `WouldBlock` for an operation that would
    /// have to wait, `Other` for everything else.
    pub fn stream_kind(&self) -> (kind: ErrorKind)
        ensures
            kind == stream_kind_of(*self),
    {
        match self {
            Error::Io(IoError { kind: ErrorKind::WouldBlock, .. }) => ErrorKind::WouldBlock,
            _ => ErrorKind::Other,
        }
    }

    /// The text that describes this error to a person.
    pub fn to_string(&self) -> (s: String)
        ensures
            s@ == message_of(*self),
    {
        match self {
            Error::Io(io) => io.message.to_owned(),
            Error::Mem => "out of memory".to_owned(),
            Error::BadMagic => "bad magic number given".to_owned(),
            Error::Unimplemented => "unimplemented feature".to_owned(),
            Error::Internal => "internal error".to_owned(),
            Error::Unknown(n) => text_around_number("unknown error ", *n, " from native library"),
        }
    }
}

} // verus!
