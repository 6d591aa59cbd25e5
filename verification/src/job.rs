//! The driver of one engine job.
//!
//! The engine works in steps: each step is given some input and some room for
//! output, uses what it can of both and answers *done* or *blocked*. A caller
//! wants a blocking stream instead. The driver stands between the two. It
//! makes no call itself: it tells its runner what to do next, as a
//! [`Request`], and is told what came of it. The runner looks into the source
//! and steps the engine; every decision is taken here.
//!
//! The source is one that reads ahead: it holds bytes ready in a buffer of
//! its own, shows them without giving them up, and is told afterwards how
//! many of them are used. The bytes stay in the source until the engine has
//! taken them. The driver keeps count of them and never holds one, so a
//! source that is handed back has in it every byte that the engine has not
//! consumed.
//!
//! A runner serves a request as follows.
//!
//! * [`Request::Fill`]: have the source fill its buffer, and tell
//!   [`JobDriver::filled`] how many bytes it holds ready; none at all means
//!   that the source is at its end. If the source fails, the runner gives up
//!   the operation with the source's own error, and the driver is left as it
//!   was.
//! * [`Request::Step`]: run the engine once, on the first bytes that the
//!   source holds ready as input and, from `out_at` on, on the caller's
//!   buffer as output, with the counts of the request's window. Hand the
//!   engine's status and the counts it left to [`JobDriver::stepped`], tell
//!   the source that [`Advance::consumed`] of its bytes are used, and go on
//!   with [`Advance::next`].
//! * [`Request::Done`] and [`Request::Failed`] end the operation.

use vstd::prelude::*;

use crate::buffers::{BufferView, Buffers};
use crate::error::{error_of_status, no_output_error, Error, ErrorKind, IoError};
use crate::raw::{RS_BLOCKED, RS_DONE};

verus! {

/// The handle of one running job of the engine.
///
/// A handle is never null: [`Job::from_raw`] refuses the null address. It
/// cannot be copied, and to give it up for release is to lose it, so that
/// one job is not released twice.
#[derive(Debug)]
pub struct Job(usize);

impl Job {
    #[verifier::type_invariant]
    spec fn not_null(self) -> bool {
        self.0 != 0
    }

    /// The address that the engine knows the job by.
    pub closed spec fn addr(self) -> usize {
        self.0
    }

    /// Takes the address that a *begin* call of the engine returned. The
    /// engine returns null where it refuses to begin; then there is no job.
    pub fn from_raw(raw: usize) -> (job: Option<Job>)
        ensures
            job is None <==> raw == 0,
            job matches Some(j) ==> j.addr() == raw,
    {
        if raw == 0 {
            None
        } else {
            Some(Job(raw))
        }
    }

    /// The address to pass to the engine's calls on this job.
    pub fn as_raw(&self) -> (raw: usize)
        ensures
            raw == self.addr(),
            raw != 0,
    {
        proof {
            use_type_invariant(self);
        }
        self.0
    }

    /// Gives the handle up for the address, which the engine is to free.
    /// The handle is gone with this call, so a job is freed at most once.
    pub fn into_raw(self) -> (raw: usize)
        ensures
            raw == self.addr(),
            raw != 0,
    {
        proof {
            use_type_invariant(&self);
        }
        self.0
    }
}

/// Which of its two operations a driver is on.
#[derive(Clone, Copy, Debug, PartialEq, Eq, Structural)]
pub enum Mode {
    /// Filling a caller's buffer with the engine's output.
    Read,
    /// Feeding the engine all of the source, with no room for output.
    Drain,
}

/// What a driver has asked of its runner and not been answered yet.
#[derive(Clone, Copy, Debug, PartialEq, Eq, Structural)]
pub enum Awaiting {
    /// Nothing.
    Nothing,
    /// Bytes of the source.
    Fill,
    /// The outcome of one step of the engine.
    Step,
}

/// What a driver wants done next.
#[derive(Clone, Copy, Debug, PartialEq, Eq)]
pub enum Request {
    /// Have the source read ahead.
    Fill,
    /// Run the engine once.
    Step {
        /// The counts to hand to the engine.
        buffers: Buffers,
        /// Where in the caller's buffer the output span begins.
        out_at: usize,
    },
    /// The operation is complete, with that many bytes in the caller's buffer.
    Done(usize),
    /// The operation has failed.
    Failed(Error),
}

/// A [`Request`] as plain values.
pub enum RequestView {
    /// Have the source read ahead.
    Fill,
    /// Run the engine once on this window, writing from `out_at` on.
    Step { buffers: BufferView, out_at: usize },
    /// The operation is complete, with that many bytes in the caller's buffer.
    Done(usize),
    /// The operation has failed.
    Failed(Error),
}

impl View for Request {
    type V = RequestView;

    open spec fn view(&self) -> RequestView {
        match *self {
            Request::Fill => RequestView::Fill,
            Request::Step { buffers, out_at } => RequestView::Step { buffers: buffers@, out_at },
            Request::Done(n) => RequestView::Done(n),
            Request::Failed(e) => RequestView::Failed(e),
        }
    }
}

/// What a driver makes of a step of the engine.
#[derive(Clone, Copy, Debug, PartialEq, Eq)]
pub struct Advance {
    /// How many of the bytes that it held ready the source is to count as
    /// used: those that the engine took in this step, and no others.
    pub consumed: usize,
    /// What the driver wants done after that.
    pub next: Request,
}

/// The state of a driver, as mathematics.
///
/// `ahead` counts the bytes that the source holds ready and the engine has
/// not taken, `consumed` those that the engine has taken since the driver was
/// made, and `produced` those that the engine has written. The rest
/// describes the operation in hand.
pub struct Progress {
    /// How many bytes the source holds ready.
    pub ahead: usize,
    /// How many bytes the engine has consumed.
    pub consumed: nat,
    /// How many bytes the engine has produced.
    pub produced: nat,
    /// Whether the source has reported its end.
    pub input_ended: bool,
    /// The operation in hand.
    pub mode: Mode,
    /// The request that is not answered yet.
    pub awaiting: Awaiting,
    /// Whether the operation in hand has been completed.
    pub complete: bool,
    /// Length of the caller's buffer.
    pub out_len: usize,
    /// How many bytes of the caller's buffer are written.
    pub out_pos: usize,
}

impl Progress {
    /// How many bytes the source has delivered: those that the engine has
    /// consumed and those that are held ready for it.
    pub open spec fn received(self) -> nat {
        self.consumed + self.ahead as nat
    }

    /// Whether the last operation was a drain and has been completed.
    pub open spec fn drained(self) -> bool {
        self.complete && self.mode is Drain
    }

    /// What holds of every driver at every moment. In particular a source
    /// that has reported its end holds nothing ready: it reports its end
    /// only when it is asked for more, and it is asked for more only when
    /// all that it held ready is consumed.
    pub open spec fn wf(self) -> bool {
        &&& self.out_pos <= self.out_len
        &&& self.out_pos <= self.produced
        &&& (self.mode is Drain ==> self.out_len == 0)
        &&& (self.input_ended ==> self.ahead == 0)
        &&& (self.complete ==> self.awaiting is Nothing)
        &&& (self.complete && self.mode is Drain ==> self.input_ended)
        &&& (self.awaiting is Fill ==> self.ahead == 0 && !self.input_ended)
        &&& (self.awaiting is Step ==> self.ahead > 0 || self.input_ended)
    }

    /// A driver that has done nothing yet.
    pub open spec fn initial() -> Progress {
        Progress {
            ahead: 0,
            consumed: 0,
            produced: 0,
            input_ended: false,
            mode: Mode::Read,
            awaiting: Awaiting::Nothing,
            complete: false,
            out_len: 0,
            out_pos: 0,
        }
    }

    /// The window for the next step: as input all that the source holds
    /// ready, with the end mark once the source has ended; as output what is
    /// left of the caller's buffer, or nothing at all when draining.
    pub open spec fn window(self) -> BufferView {
        BufferView::fresh(
            self.ahead,
            match self.mode {
                Mode::Read => Some((self.out_len - self.out_pos) as usize),
                Mode::Drain => None,
            },
            self.input_ended,
        )
    }

    /// Asks for what the operation needs next: bytes of the source if none
    /// are held ready and the source has not ended, a step of the engine
    /// otherwise.
    pub open spec fn proceed(self) -> (Progress, RequestView) {
        if self.ahead == 0 && !self.input_ended {
            (Progress { awaiting: Awaiting::Fill, ..self }, RequestView::Fill)
        } else {
            (
                Progress { awaiting: Awaiting::Step, ..self },
                RequestView::Step { buffers: self.window(), out_at: self.out_pos },
            )
        }
    }

    /// Starts an operation: a read into a buffer of `out_len` bytes, or a
    /// drain, which has no buffer.
    pub open spec fn begin(self, mode: Mode, out_len: usize) -> (Progress, RequestView) {
        Progress {
            mode,
            awaiting: Awaiting::Nothing,
            complete: false,
            out_len: match mode {
                Mode::Read => out_len,
                Mode::Drain => 0,
            },
            out_pos: 0,
            ..self
        }.proceed()
    }

    /// The source holds `len` bytes ready; none means that it has ended. An
    /// answer that was not asked for is refused.
    pub open spec fn filled(self, len: usize) -> (Progress, RequestView) {
        if !(self.awaiting is Fill) {
            (self, RequestView::Failed(Error::Internal))
        } else {
            Progress {
                ahead: len,
                input_ended: len == 0,
                awaiting: Awaiting::Nothing,
                ..self
            }.proceed()
        }
    }

    /// Whether a step that the engine answered with `status`, leaving
    /// `avail_in` bytes of input and `avail_out` bytes of output, counts: it
    /// was asked for, the engine did not fail, and the counts fit the window.
    pub open spec fn counts(self, status: i32, avail_in: usize, avail_out: usize) -> bool {
        &&& self.awaiting is Step
        &&& (status == RS_DONE || status == RS_BLOCKED)
        &&& self.window().admits(avail_in, avail_out)
    }

    /// How many bytes the source is to count as used after such a step: what
    /// the engine took of the input span if the step counts, nothing if it
    /// does not.
    pub open spec fn taken(self, status: i32, avail_in: usize, avail_out: usize) -> usize {
        if self.counts(status, avail_in, avail_out) {
            (self.ahead - avail_in) as usize
        } else {
            0
        }
    }

    /// The engine has made a step: it answered `status` and left `avail_in`
    /// bytes of the input span and `avail_out` bytes of the output span.
    ///
    /// * An answer that was not asked for is refused.
    /// * A status other than *done* and *blocked* ends the operation with the
    ///   error that the status stands for.
    /// * Counts that exceed the window end it with `Internal`.
    /// * Otherwise what the engine took is no longer held ready, and what it
    ///   wrote is added to the caller's buffer. A read is complete when the
    ///   buffer is full or the engine is done; it fails if the engine is
    ///   blocked though it neither took nor wrote a byte; else it goes on. A
    ///   drain fails if the engine is blocked with input left over or with
    ///   the end of input in sight, since only room for output could help it
    ///   then; it is complete once the source has ended; else it goes on.
    pub open spec fn stepped(self, status: i32, avail_in: usize, avail_out: usize) -> (
        Progress,
        RequestView,
    ) {
        let window = self.window();
        let idle = Progress { awaiting: Awaiting::Nothing, ..self };
        if !(self.awaiting is Step) {
            (self, RequestView::Failed(Error::Internal))
        } else if status != RS_DONE && status != RS_BLOCKED {
            (idle, RequestView::Failed(error_of_status(status)))
        } else if !window.admits(avail_in, avail_out) {
            (idle, RequestView::Failed(Error::Internal))
        } else {
            let used = window.settled(avail_in, avail_out).consumed();
            let made = window.settled(avail_in, avail_out).produced();
            let next = Progress {
                ahead: avail_in,
                consumed: (self.consumed + used) as nat,
                produced: (self.produced + made) as nat,
                out_pos: (self.out_pos + made) as usize,
                ..idle
            };
            match self.mode {
                Mode::Read => {
                    if next.out_pos == next.out_len || status == RS_DONE {
                        (Progress { complete: true, ..next }, RequestView::Done(next.out_pos))
                    } else if used == 0 && made == 0 {
                        (next, RequestView::Failed(error_of_status(RS_BLOCKED)))
                    } else {
                        next.proceed()
                    }
                },
                Mode::Drain => {
                    if status == RS_BLOCKED && (avail_in > 0 || self.input_ended) {
                        (next, RequestView::Failed(no_output_error()))
                    } else if self.input_ended {
                        (Progress { complete: true, ..next }, RequestView::Done(0))
                    } else {
                        next.proceed()
                    }
                },
            }
        }
    }
}

/// The state of a driver: how much its source holds ready, and how far the
/// operation in hand has come.
struct DriverState {
    ahead: usize,
    ended: bool,
    mode: Mode,
    awaiting: Awaiting,
    complete: bool,
    out_len: usize,
    out_pos: usize,
    /// How many bytes the engine has consumed.
    consumed: Ghost<nat>,
    /// How many bytes the engine had produced when the operation began.
    out_base: Ghost<nat>,
}

impl View for DriverState {
    type V = Progress;

    closed spec fn view(&self) -> Progress {
        Progress {
            ahead: self.ahead,
            consumed: self.consumed@,
            produced: self.out_base@ + self.out_pos as nat,
            input_ended: self.ended,
            mode: self.mode,
            awaiting: self.awaiting,
            complete: self.complete,
            out_len: self.out_len,
            out_pos: self.out_pos,
        }
    }
}

impl DriverState {
    #[verifier::type_invariant]
    spec fn inv(self) -> bool {
        self@.wf()
    }

    fn new() -> (s: DriverState)
        ensures
            s@ == Progress::initial(),
    {
        DriverState {
            ahead: 0,
            ended: false,
            mode: Mode::Read,
            awaiting: Awaiting::Nothing,
            complete: false,
            out_len: 0,
            out_pos: 0,
            consumed: Ghost(0),
            out_base: Ghost(0),
        }
    }

    fn window(&self) -> (b: Buffers)
        ensures
            b@ == self@.window(),
    {
        proof {
            use_type_invariant(self);
        }
        match self.mode {
            Mode::Read => Buffers::new(self.ahead, self.out_len - self.out_pos, self.ended),
            Mode::Drain => Buffers::with_no_out(self.ahead, self.ended),
        }
    }

    fn proceed(&mut self) -> (req: Request)
        requires
            old(self)@.awaiting is Nothing,
            !old(self)@.complete,
        ensures
            (final(self)@, req@) == old(self)@.proceed(),
    {
        proof {
            use_type_invariant(&*self);
        }
        if self.ahead == 0 && !self.ended {
            self.awaiting = Awaiting::Fill;
            Request::Fill
        } else {
            let buffers = self.window();
            self.awaiting = Awaiting::Step;
            Request::Step { buffers, out_at: self.out_pos }
        }
    }

    fn begin(&mut self, mode: Mode, out_len: usize) -> (req: Request)
        ensures
            (final(self)@, req@) == old(self)@.begin(mode, out_len),
    {
        proof {
            use_type_invariant(&*self);
        }
        self.complete = false;
        self.awaiting = Awaiting::Nothing;
        self.out_base = Ghost(self.out_base@ + self.out_pos as nat);
        self.out_pos = 0;
        match mode {
            Mode::Read => {
                self.mode = Mode::Read;
                self.out_len = out_len;
            },
            Mode::Drain => {
                self.out_len = 0;
                self.mode = Mode::Drain;
            },
        }
        self.proceed()
    }

    fn filled(&mut self, len: usize) -> (req: Request)
        ensures
            (final(self)@, req@) == old(self)@.filled(len),
    {
        proof {
            use_type_invariant(&*self);
        }
        if self.awaiting != Awaiting::Fill {
            return Request::Failed(Error::Internal);
        }
        self.awaiting = Awaiting::Nothing;
        self.ahead = len;
        self.ended = len == 0;
        self.proceed()
    }

    fn stepped(&mut self, status: i32, avail_in: usize, avail_out: usize) -> (advance: Advance)
        ensures
            (final(self)@, advance.next@) == old(self)@.stepped(status, avail_in, avail_out),
            advance.consumed == old(self)@.taken(status, avail_in, avail_out),
    {
        proof {
            use_type_invariant(&*self);
        }
        if self.awaiting != Awaiting::Step {
            return Advance { consumed: 0, next: Request::Failed(Error::Internal) };
        }
        let mut window = self.window();
        let ended = self.ended;
        self.awaiting = Awaiting::Nothing;
        if status != RS_DONE && status != RS_BLOCKED {
            return Advance { consumed: 0, next: Request::Failed(Error::from(status)) };
        }
        if !window.settle(avail_in, avail_out) {
            return Advance { consumed: 0, next: Request::Failed(Error::Internal) };
        }
        let used = window.consumed();
        let made = window.produced();
        self.ahead = avail_in;
        self.consumed = Ghost(self.consumed@ + used as nat);
        self.out_pos = self.out_pos + made;
        let next = match self.mode {
            Mode::Read => {
                if self.out_pos == self.out_len || status == RS_DONE {
                    self.complete = true;
                    Request::Done(self.out_pos)
                } else if used == 0 && made == 0 {
                    Request::Failed(Error::from(RS_BLOCKED))
                } else {
                    self.proceed()
                }
            },
            Mode::Drain => {
                if status == RS_BLOCKED && (avail_in > 0 || ended) {
                    Request::Failed(
                        Error::Io(
                            IoError {
                                kind: ErrorKind::WouldBlock,
                                message: "cannot consume input without an output buffer",
                            },
                        ),
                    )
                } else if ended {
                    self.complete = true;
                    Request::Done(0)
                } else {
                    self.proceed()
                }
            },
        };
        Advance { consumed: used, next }
    }
}

/// The driver of one job: the source that feeds it, the engine's handle, and
/// the state of the operation in hand.
pub struct JobDriver<R> {
    input: R,
    job: Job,
    state: DriverState,
}

impl<R> View for JobDriver<R> {
    type V = Progress;

    closed spec fn view(&self) -> Progress {
        self.state@
    }
}

impl<R> JobDriver<R> {
    /// The source that feeds the job.
    pub closed spec fn source(self) -> R {
        self.input
    }

    /// The handle of the job.
    pub closed spec fn engine(self) -> Job {
        self.job
    }

    /// A driver for `job`, fed from `input`. The source is not looked into
    /// and no step is made before an operation is started.
    pub fn new(input: R, job: Job) -> (driver: Self)
        ensures
            driver.source() == input,
            driver.engine() == job,
            driver@ == Progress::initial(),
            driver@.wf(),
    {
        JobDriver { input, job, state: DriverState::new() }
    }

    /// Ends the driver: the job's handle goes to `release`, which is to free
    /// it, and after that the source goes back to the caller, as the runner
    /// left it. The driver holds no byte of it, so nothing that the engine
    /// has not consumed is lost: the source still holds it ready.
    pub fn into_inner<F: FnOnce(Job)>(self, release: F) -> (input: R)
        requires
            release.requires((self.engine(),)),
        ensures
            input == self.source(),
            release.ensures((self.engine(),), ()),
    {
        let JobDriver { input, job, state: _ } = self;
        release(job);
        input
    }

    /// The source, for the runner to look into and to tell what is used.
    pub fn input_mut(&mut self) -> (input: &mut R)
        ensures
            *input == old(self).source(),
            final(self).source() == *final(input),
            final(self).engine() == old(self).engine(),
            final(self)@ == old(self)@,
    {
        &mut self.input
    }

    /// The job's handle, for the runner to step the engine with.
    pub fn job(&self) -> (job: &Job)
        ensures
            *job == self.engine(),
    {
        &self.job
    }

    /// How many bytes the source holds ready for the engine, as far as the
    /// driver was told: the input of the next step.
    pub fn ahead(&self) -> (n: usize)
        ensures
            n == self@.ahead,
            self@.wf(),
    {
        proof {
            use_type_invariant(&self.state);
        }
        self.state.ahead
    }

    /// Whether the source has reported its end.
    pub fn input_ended(&self) -> (ended: bool)
        ensures
            ended == self@.input_ended,
    {
        self.state.ended
    }

    /// Whether the last operation was a drain and has been completed: the
    /// source has ended, the engine has taken all of it and has reported that
    /// it is done.
    pub fn drained(&self) -> (yes: bool)
        ensures
            yes == self@.drained(),
            yes ==> self@.input_ended && self@.ahead == 0,
    {
        proof {
            use_type_invariant(&self.state);
        }
        self.state.complete && self.state.mode == Mode::Drain
    }

    /// Starts a read into a buffer of `out_len` bytes: the engine is run,
    /// and fed as it asks, until the buffer is full or the engine is done.
    /// The request that ends the read, [`Request::Done`], tells how many
    /// bytes were written; none means that the engine's output has ended,
    /// unless the buffer has no room at all.
    pub fn read(&mut self, out_len: usize) -> (req: Request)
        ensures
            (final(self)@, req@) == old(self)@.begin(Mode::Read, out_len),
            final(self).source() == old(self).source(),
            final(self).engine() == old(self).engine(),
            final(self)@.wf(),
    {
        let req = self.state.begin(Mode::Read, out_len);
        proof {
            use_type_invariant(&self.state);
        }
        req
    }

    /// Starts a drain: the engine is fed until the source has ended and the
    /// engine is done, with no room for output. If the engine needs such
    /// room, the drain fails with an error of kind `WouldBlock`.
    pub fn consume_input(&mut self) -> (req: Request)
        ensures
            (final(self)@, req@) == old(self)@.begin(Mode::Drain, 0),
            final(self).source() == old(self).source(),
            final(self).engine() == old(self).engine(),
            final(self)@.wf(),
    {
        let req = self.state.begin(Mode::Drain, 0);
        proof {
            use_type_invariant(&self.state);
        }
        req
    }

    /// Answers [`Request::Fill`] with the number of bytes that the source
    /// holds ready; none means that the source has ended.
    pub fn filled(&mut self, len: usize) -> (req: Request)
        ensures
            (final(self)@, req@) == old(self)@.filled(len),
            final(self).source() == old(self).source(),
            final(self).engine() == old(self).engine(),
            final(self)@.wf(),
    {
        let req = self.state.filled(len);
        proof {
            use_type_invariant(&self.state);
        }
        req
    }

    /// Answers [`Request::Step`] with the engine's status and the counts that
    /// it left in its buffers. The answer tells by how many bytes the source
    /// is to move on, which is what the engine took if the step counts and
    /// nothing if it does not, and what to do next.
    pub fn stepped(&mut self, status: i32, avail_in: usize, avail_out: usize) -> (advance: Advance)
        ensures
            (final(self)@, advance.next@) == old(self)@.stepped(status, avail_in, avail_out),
            advance.consumed == old(self)@.taken(status, avail_in, avail_out),
            final(self).source() == old(self).source(),
            final(self).engine() == old(self).engine(),
            final(self)@.wf(),
    {
        let advance = self.state.stepped(status, avail_in, avail_out);
        proof {
            use_type_invariant(&self.state);
        }
        advance
    }
}

} // verus!
