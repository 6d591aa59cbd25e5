//! The window that one step of the engine works on.
//!
//! The engine is handed a span of input, a span of output and a mark that
//! says whether more input can follow. It answers with how much of each span
//! it has left untouched. [`Buffers`] keeps both sides of that exchange and
//! refuses an answer that does not fit the spans.

use vstd::prelude::*;

verus! {

/// What a [`Buffers`] value holds, as plain numbers.
pub struct BufferView {
    /// Length of the input span.
    pub in_len: usize,
    /// How many bytes at the end of the input span are not consumed.
    pub avail_in: usize,
    /// Whether the input span is all that is left of the input.
    pub eof_in: bool,
    /// Length of the output span; `None` where the step has no output span.
    pub out_len: Option<usize>,
    /// How many bytes at the end of the output span are not written.
    pub avail_out: usize,
}

impl BufferView {
    /// The window as it is before the engine has worked on it.
    pub open spec fn fresh(in_len: usize, out_len: Option<usize>, eof_in: bool) -> BufferView {
        BufferView {
            in_len,
            avail_in: in_len,
            eof_in,
            out_len,
            avail_out: match out_len {
                Some(n) => n,
                None => 0,
            },
        }
    }

    /// Room of the output span; none where there is no span.
    pub open spec fn out_room(self) -> usize {
        match self.out_len {
            Some(n) => n,
            None => 0,
        }
    }

    /// No count exceeds the span it counts in.
    pub open spec fn wf(self) -> bool {
        &&& self.avail_in <= self.in_len
        &&& self.avail_out <= self.out_room()
    }

    /// Bytes that the engine took from the input span.
    pub open spec fn consumed(self) -> int {
        self.in_len - self.avail_in
    }

    /// Bytes that the engine wrote into the output span.
    pub open spec fn produced(self) -> int {
        self.out_room() - self.avail_out
    }

    /// Whether the engine may have left `avail_in` and `avail_out` bytes
    /// behind: it can use up what it was given, and cannot hand anything back.
    pub open spec fn admits(self, avail_in: usize, avail_out: usize) -> bool {
        avail_in <= self.avail_in && avail_out <= self.avail_out
    }

    /// The window once the engine has left `avail_in` and `avail_out` bytes.
    pub open spec fn settled(self, avail_in: usize, avail_out: usize) -> BufferView {
        BufferView { avail_in, avail_out, ..self }
    }
}

/// The counts of a window in the form the engine reads them: the two lengths
/// and the end-of-input mark as a number.
#[derive(Clone, Copy, Debug, PartialEq, Eq)]
pub struct RawBuffers {
    /// Bytes of input that the engine may read.
    pub avail_in: usize,
    /// `1` if no input follows what is offered, `0` otherwise.
    pub eof_in: i32,
    /// Bytes of output that the engine may write.
    pub avail_out: usize,
}

/// One step's window over input and output.
#[derive(Clone, Copy, Debug, PartialEq, Eq)]
pub struct Buffers {
    in_len: usize,
    avail_in: usize,
    eof_in: bool,
    has_out: bool,
    out_len: usize,
    avail_out: usize,
}

impl View for Buffers {
    type V = BufferView;

    closed spec fn view(&self) -> BufferView {
        BufferView {
            in_len: self.in_len,
            avail_in: self.avail_in,
            eof_in: self.eof_in,
            out_len: if self.has_out {
                Some(self.out_len)
            } else {
                None
            },
            avail_out: self.avail_out,
        }
    }
}

impl Buffers {
    #[verifier::type_invariant]
    spec fn counts_fit(self) -> bool {
        &&& self.avail_in <= self.in_len
        &&& self.avail_out <= self.out_len
        &&& !self.has_out ==> self.out_len == 0
    }

    /// A window over `in_len` bytes of input and `out_len` bytes of output,
    /// untouched by the engine.
    pub fn new(in_len: usize, out_len: usize, eof_in: bool) -> (b: Buffers)
        ensures
            b@ == BufferView::fresh(in_len, Some(out_len), eof_in),
            b@.wf(),
    {
        Buffers { in_len, avail_in: in_len, eof_in, has_out: true, out_len, avail_out: out_len }
    }

    /// A window over `in_len` bytes of input and no output at all, for a job
    /// that only takes input in.
    pub fn with_no_out(in_len: usize, eof_in: bool) -> (b: Buffers)
        ensures
            b@ == BufferView::fresh(in_len, None, eof_in),
            b@.wf(),
    {
        Buffers { in_len, avail_in: in_len, eof_in, has_out: false, out_len: 0, avail_out: 0 }
    }

    /// The counts as the engine reads them.
    pub fn as_raw(&self) -> (raw: RawBuffers)
        ensures
            raw.avail_in == self@.avail_in,
            raw.eof_in == if self@.eof_in { 1i32 } else { 0i32 },
            raw.avail_out == self@.avail_out,
            self@.wf(),
    {
        proof {
            use_type_invariant(self);
        }
        RawBuffers {
            avail_in: self.avail_in,
            eof_in: if self.eof_in {
                1
            } else {
                0
            },
            avail_out: self.avail_out,
        }
    }

    /// Bytes of the input span that are not consumed.
    pub fn available_input(&self) -> (n: usize)
        ensures
            n == self@.avail_in,
    {
        self.avail_in
    }

    /// Bytes of the output span that are not written.
    pub fn available_output(&self) -> (n: usize)
        ensures
            n == self@.avail_out,
    {
        self.avail_out
    }

    /// Whether the window marks its input as the last.
    pub fn eof_in(&self) -> (eof: bool)
        ensures
            eof == self@.eof_in,
    {
        self.eof_in
    }

    /// Whether the window has an output span.
    pub fn has_output(&self) -> (has: bool)
        ensures
            has == self@.out_len.is_some(),
    {
        self.has_out
    }

    /// Takes down what the engine left: `avail_in` bytes of input not
    /// consumed, `avail_out` bytes of output not written. An answer that
    /// claims more than the window offered is refused, and the window stays
    /// as it was.
    pub fn settle(&mut self, avail_in: usize, avail_out: usize) -> (ok: bool)
        ensures
            ok == old(self)@.admits(avail_in, avail_out),
            ok ==> final(self)@ == old(self)@.settled(avail_in, avail_out),
            !ok ==> final(self)@ == old(self)@,
            old(self)@.wf(),
            final(self)@.wf(),
    {
        proof {
            use_type_invariant(&*self);
        }
        if avail_in <= self.avail_in && avail_out <= self.avail_out {
            self.avail_in = avail_in;
            self.avail_out = avail_out;
            true
        } else {
            false
        }
    }

    /// Bytes that the engine took from the input span.
    pub fn consumed(&self) -> (n: usize)
        ensures
            n == self@.consumed(),
            self@.wf(),
    {
        proof {
            use_type_invariant(self);
        }
        self.in_len - self.avail_in
    }

    /// Bytes that the engine wrote into the output span.
    pub fn produced(&self) -> (n: usize)
        ensures
            n == self@.produced(),
            self@.wf(),
    {
        proof {
            use_type_invariant(self);
        }
        self.out_len - self.avail_out
    }
}

} // verus!
