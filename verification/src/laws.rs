//! What holds of a driver however it is run.
//!
//! A runner can start operations and answer requests in any order and with
//! any values. The laws below are stated over every such history.

use vstd::prelude::*;

use crate::error::no_output_error;
use crate::job::{Mode, Progress, RequestView};
use crate::raw::{RS_BLOCKED, RS_DONE};

verus! {

/// One thing that a runner does to a driver.
pub enum Event {
    /// It starts a read into a buffer of that many bytes.
    Read(usize),
    /// It starts a drain.
    Drain,
    /// It reports how many bytes the source holds ready.
    Filled(usize),
    /// It reports a step of the engine.
    Stepped { status: i32, avail_in: usize, avail_out: usize },
}

/// The driver after `event`, and what it asks for then.
pub open spec fn after(s: Progress, event: Event) -> (Progress, RequestView) {
    match event {
        Event::Read(out_len) => s.begin(Mode::Read, out_len),
        Event::Drain => s.begin(Mode::Drain, 0),
        Event::Filled(len) => s.filled(len),
        Event::Stepped { status, avail_in, avail_out } => s.stepped(status, avail_in, avail_out),
    }
}

/// By how many bytes the source is told to move on after `event`.
pub open spec fn moved_by(s: Progress, event: Event) -> nat {
    match event {
        Event::Stepped { status, avail_in, avail_out } => s.taken(status, avail_in, avail_out)
            as nat,
        _ => 0,
    }
}

/// The driver after all of `events`, and the last thing it asked for; `req`
/// where there was no event.
pub open spec fn run(s: Progress, req: RequestView, events: Seq<Event>) -> (Progress, RequestView)
    decreases events.len(),
{
    if events.len() == 0 {
        (s, req)
    } else {
        after(run(s, req, events.drop_last()).0, events.last())
    }
}

/// By how many bytes the source is told to move on in the course of
/// `events`.
pub open spec fn moved(s: Progress, req: RequestView, events: Seq<Event>) -> nat
    decreases events.len(),
{
    if events.len() == 0 {
        0
    } else {
        moved(s, req, events.drop_last()) + moved_by(
            run(s, req, events.drop_last()).0,
            events.last(),
        )
    }
}

/// Whether no operation is started in `events`.
pub open spec fn answers_only(events: Seq<Event>) -> bool {
    forall|i: int| 0 <= i < events.len() ==> !(#[trigger] events[i] is Read) && !(events[i] is Drain)
}

/// What a request promises about the state it leaves: the driver awaits the
/// answer to what it asked, and a step is asked on the window that the state
/// describes.
pub open spec fn asked(s: Progress, req: RequestView) -> bool {
    match req {
        RequestView::Fill => s.awaiting is Fill,
        RequestView::Step { buffers, out_at } => {
            &&& s.awaiting is Step
            &&& buffers == s.window()
            &&& out_at == s.out_pos
        },
        RequestView::Done(n) => s.awaiting is Nothing && s.complete,
        RequestView::Failed(_) => true,
    }
}

/// Every event leaves the driver well-formed, and the window of every step
/// that it asks for holds no count beyond its spans.
pub proof fn lemma_after_keeps_wf(s: Progress, event: Event)
    requires
        s.wf(),
    ensures
        after(s, event).0.wf(),
        after(s, event).0.window().wf(),
{
}

/// Every history leaves the driver well-formed.
pub proof fn lemma_run_keeps_wf(s: Progress, req: RequestView, events: Seq<Event>)
    requires
        s.wf(),
    ensures
        run(s, req, events).0.wf(),
    decreases events.len(),
{
    if events.len() > 0 {
        lemma_run_keeps_wf(s, req, events.drop_last());
        lemma_after_keeps_wf(run(s, req, events.drop_last()).0, events.last());
    }
}

/// If no operation is started in a history, none is started in all but its
/// last event, nor in the last.
pub proof fn lemma_all_but_last(events: Seq<Event>)
    requires
        events.len() > 0,
        answers_only(events),
    ensures
        answers_only(events.drop_last()),
        !(events.last() is Read),
        !(events.last() is Drain),
{
    let before = events.drop_last();
    assert(events.last() == events[events.len() - 1]);
    assert forall|i: int| 0 <= i < before.len() implies !(#[trigger] before[i] is Read) && !(
    before[i] is Drain) by {
        assert(before[i] == events[i]);
    }
}

/// Once the source has reported its end, nothing a runner does makes the
/// driver forget it, and whatever the driver asks for from then on, it is not
/// bytes of the source.
pub proof fn law_end_of_input_is_final(s: Progress, req: RequestView, events: Seq<Event>)
    requires
        s.wf(),
        s.input_ended,
    ensures
        run(s, req, events).0.input_ended,
        events.len() > 0 ==> !(run(s, req, events).1 is Fill),
    decreases events.len(),
{
    if events.len() > 0 {
        law_end_of_input_is_final(s, req, events.drop_last());
        lemma_run_keeps_wf(s, req, events.drop_last());
    }
}

/// A drain in which the engine reports that it is blocked, though it has
/// input left or has been told that no more will come, fails with the error
/// that says that there is no output buffer. The source is told to move on
/// by what the engine took and by no more, so that the input that is left
/// is still in the source.
pub proof fn law_drain_blocked_for_output(s: Progress, avail_in: usize, avail_out: usize)
    requires
        s.wf(),
        s.mode is Drain,
        s.awaiting is Step,
        s.window().admits(avail_in, avail_out),
        avail_in > 0 || s.input_ended,
    ensures
        s.stepped(RS_BLOCKED, avail_in, avail_out).1 == RequestView::Failed(no_output_error()),
        s.stepped(RS_BLOCKED, avail_in, avail_out).0.ahead == avail_in,
        s.taken(RS_BLOCKED, avail_in, avail_out) == s.ahead - avail_in,
{
}

/// A drain is completed by nothing but a step in which the engine reports
/// that it is done, made after the source has reported its end and with
/// nothing of the source left to take. A blocked engine never completes one.
pub proof fn law_drain_completes_only_when_done(
    s: Progress,
    status: i32,
    avail_in: usize,
    avail_out: usize,
)
    requires
        s.wf(),
        s.mode is Drain,
        s.stepped(status, avail_in, avail_out).1 is Done,
    ensures
        status == RS_DONE,
        s.input_ended,
        s.ahead == 0,
        s.awaiting is Step,
        s.stepped(status, avail_in, avail_out).1 == RequestView::Done(0),
        s.stepped(status, avail_in, avail_out).0.drained(),
{
}

/// A driver counts as drained only if the source has ended and the engine
/// has consumed every byte that the source delivered.
pub proof fn law_drained_means_all_input_consumed(s: Progress)
    requires
        s.wf(),
        s.drained(),
    ensures
        s.input_ended,
        s.ahead == 0,
        s.consumed == s.received(),
{
}

/// After a step the source is told to move on by exactly what the engine
/// took: never by more than it held ready, and by nothing if the step does
/// not count. What the engine did not take is still held ready, and is the
/// input of the next step before anything else.
pub proof fn law_source_moves_by_what_the_engine_took(
    s: Progress,
    status: i32,
    avail_in: usize,
    avail_out: usize,
)
    requires
        s.wf(),
    ensures
        ({
            let (t, req) = s.stepped(status, avail_in, avail_out);
            let took = s.taken(status, avail_in, avail_out);
            &&& took <= s.ahead
            &&& t.consumed == s.consumed + took
            &&& t.ahead == s.ahead - took
            &&& t.received() == s.received()
            &&& s.counts(status, avail_in, avail_out) ==> took == s.ahead - avail_in
            &&& !s.counts(status, avail_in, avail_out) ==> took == 0
            &&& req matches RequestView::Step { buffers, .. } ==> buffers.in_len == t.ahead
                && buffers.avail_in == t.ahead
        }),
{
}

/// The engine is fed the source's bytes in order, each byte once. Over any
/// history, what the engine has consumed grows by exactly what the source
/// was told to move on by, it never passes what the source has delivered,
/// and the input of a step is always all that lies between the two.
pub proof fn law_input_is_fed_in_order(s: Progress, req: RequestView, events: Seq<Event>)
    requires
        s.wf(),
    ensures
        ({
            let t = run(s, req, events).0;
            &&& t.consumed == s.consumed + moved(s, req, events)
            &&& s.received() <= t.received()
            &&& t.consumed <= t.received()
            &&& t.window().in_len == t.received() - t.consumed
        }),
    decreases events.len(),
{
    if events.len() > 0 {
        let p = run(s, req, events.drop_last()).0;
        law_input_is_fed_in_order(s, req, events.drop_last());
        lemma_run_keeps_wf(s, req, events.drop_last());
        if let Event::Stepped { status, avail_in, avail_out } = events.last() {
            law_source_moves_by_what_the_engine_took(p, status, avail_in, avail_out);
        }
    }
}

/// During a read, whatever the runner answers, the caller's buffer holds
/// exactly the bytes that the engine has produced since the read began: the
/// count of written bytes is the count of produced bytes, it never exceeds
/// the buffer, and each step is asked to write where the last one stopped,
/// into all the room that is left. When the read is complete, it reports that
/// count.
pub proof fn law_read_reports_what_was_produced(s: Progress, out_len: usize, events: Seq<Event>)
    requires
        s.wf(),
        answers_only(events),
    ensures
        ({
            let start = s.begin(Mode::Read, out_len);
            let (t, req) = run(start.0, start.1, events);
            &&& t.mode is Read
            &&& t.out_len == out_len
            &&& t.out_pos <= out_len
            &&& t.produced == s.produced + t.out_pos
            &&& req matches RequestView::Done(n) ==> n == t.out_pos
            &&& req matches RequestView::Step { buffers, out_at } ==> {
                &&& out_at == t.out_pos
                &&& buffers.out_len == Some((out_len - out_at) as usize)
                &&& buffers.avail_out == out_len - out_at
            }
            &&& asked(t, req)
        }),
    decreases events.len(),
{
    let start = s.begin(Mode::Read, out_len);
    if events.len() > 0 {
        let before = events.drop_last();
        lemma_all_but_last(events);
        law_read_reports_what_was_produced(s, out_len, before);
        lemma_after_keeps_wf(s, Event::Read(out_len));
        lemma_run_keeps_wf(start.0, start.1, before);
    }
}

/// One read of a history of reads: the size of the caller's buffer and what
/// the runner answered until the read was complete.
pub struct ReadCall {
    /// Length of the caller's buffer.
    pub out_len: usize,
    /// The runner's answers.
    pub events: Seq<Event>,
}

/// The driver after the reads `calls`, made one after the other.
pub open spec fn after_reads(s: Progress, calls: Seq<ReadCall>) -> Progress
    decreases calls.len(),
{
    if calls.len() == 0 {
        s
    } else {
        let before = after_reads(s, calls.drop_last());
        let start = before.begin(Mode::Read, calls.last().out_len);
        run(start.0, start.1, calls.last().events).0
    }
}

/// Whether each of the reads `calls`, made one after the other, is complete
/// with its last answer.
pub open spec fn reads_complete(s: Progress, calls: Seq<ReadCall>) -> bool
    decreases calls.len(),
{
    if calls.len() == 0 {
        true
    } else {
        let before = after_reads(s, calls.drop_last());
        let start = before.begin(Mode::Read, calls.last().out_len);
        &&& reads_complete(s, calls.drop_last())
        &&& answers_only(calls.last().events)
        &&& run(start.0, start.1, calls.last().events).1 is Done
    }
}

/// The sum of the counts that the reads `calls` report.
pub open spec fn reported(s: Progress, calls: Seq<ReadCall>) -> nat
    decreases calls.len(),
{
    if calls.len() == 0 {
        0
    } else {
        let before = after_reads(s, calls.drop_last());
        let start = before.begin(Mode::Read, calls.last().out_len);
        let last = match run(start.0, start.1, calls.last().events).1 {
            RequestView::Done(n) => n as nat,
            _ => 0,
        };
        reported(s, calls.drop_last()) + last
    }
}

/// Short reads lose nothing: however small the buffers and however many
/// reads it takes, the counts that the reads report add up to what the
/// engine has produced, each read picking up where the last one stopped.
pub proof fn law_reads_reassemble_the_output(s: Progress, calls: Seq<ReadCall>)
    requires
        s.wf(),
        reads_complete(s, calls),
    ensures
        after_reads(s, calls).wf(),
        after_reads(s, calls).produced == s.produced + reported(s, calls),
    decreases calls.len(),
{
    if calls.len() > 0 {
        let before = after_reads(s, calls.drop_last());
        law_reads_reassemble_the_output(s, calls.drop_last());
        law_read_reports_what_was_produced(before, calls.last().out_len, calls.last().events);
        let start = before.begin(Mode::Read, calls.last().out_len);
        lemma_after_keeps_wf(before, Event::Read(calls.last().out_len));
        lemma_run_keeps_wf(start.0, start.1, calls.last().events);
    }
}

} // verus!
