//! A streamed answer, from the bytes that arrive to the pieces that are handed on.

use vstd::prelude::*;

use crate::llm::stream::{
    chunks_of, ChunkView, CollectStep, CollectStepView, CollectorView, LlmChunk, ReadStep,
    ResponseCollector, SseData, SsePoll, SseStream, StreamChunk,
};
use crate::llm::stream;
use crate::views;

verus! {

/// What a line of the stream turned out to carry.
#[derive(Debug)]
pub enum ParsedData {
    /// The marker behind the last object.
    Done,
    /// An object.
    Chunk(StreamChunk),
    /// A text that is no object; it is passed over.
    Unreadable,
}

impl ParsedData {
    /// The pieces that the line stands for.
    pub open spec fn chunks(self) -> Seq<ChunkView> {
        match self {
            ParsedData::Done => seq![ChunkView::Done],
            ParsedData::Chunk(chunk) => stream::chunks_of_choices(views::of(chunk.choices@)),
            ParsedData::Unreadable => seq![],
        }
    }
}

/// What came out of an attempt to read from the connection.
#[derive(Debug)]
pub enum AnswerRead {
    /// The request was cancelled: take these steps and stop.
    Cancelled(Vec<CollectStep>),
    /// The answer has ended, now that the connection failed or before: stop.
    Ended,
    /// The bytes were taken in.
    Buffered,
}

/// What came out of a look for the next event.
#[derive(Debug)]
pub enum AnswerPoll {
    /// No event is complete: read on.
    Pending,
    /// The request was cancelled: take these steps and stop.
    Cancelled(Vec<CollectStep>),
    /// What the next event carries.
    Event(Vec<SseData>),
}

/// Something that happens to a streamed answer.
pub enum AnswerHappening {
    /// The connection was read: bytes came, or nothing where reading failed. `cancelled` is what
    /// the flag said.
    Read { cancelled: bool, received: Option<Seq<u8>> },
    /// The next complete event was looked for. `cancelled` is what the flag said.
    Poll { cancelled: bool },
    /// A line of an event turned out to stand for pieces.
    Data(Seq<ChunkView>),
}

/// The mathematical counterpart of an [`AnswerStream`].
pub struct AnswerView {
    /// The text in which no complete event was found yet.
    pub buffer: Seq<char>,
    /// What was collected of the answer.
    pub collector: CollectorView,
    /// Whether the answer has ended, because it was cancelled or the connection failed.
    pub ended: bool,
}

/// A streamed answer.
pub struct AnswerStream {
    sse: SseStream,
    collector: ResponseCollector,
    ended: bool,
}

impl View for AnswerStream {
    type V = AnswerView;

    closed spec fn view(&self) -> AnswerView {
        AnswerView { buffer: self.sse@, collector: self.collector@, ended: self.ended }
    }
}

impl AnswerView {
    /// An answer of which nothing has arrived.
    pub open spec fn fresh(collector: CollectorView) -> AnswerView {
        AnswerView { buffer: seq![], collector, ended: false }
    }

    /// Whether the answer is cancelled when `h` happens: the flag says so, and it is looked at
    /// before bytes are taken in and before an event is.
    pub open spec fn is_cancelled_by(self, h: AnswerHappening) -> bool {
        !self.ended && match h {
            AnswerHappening::Read { cancelled, received: _ } => cancelled,
            AnswerHappening::Poll { cancelled } => cancelled && stream::events(self.buffer).len()
                > 0,
            AnswerHappening::Data(_) => false,
        }
    }

    /// The answer after something happened. Once it has ended it does not change.
    pub open spec fn after(self, h: AnswerHappening) -> AnswerView {
        if self.ended {
            self
        } else if self.is_cancelled_by(h) {
            AnswerView {
                collector: self.collector.after_all(seq![ChunkView::Cancelled]),
                ended: true,
                ..self
            }
        } else {
            match h {
                AnswerHappening::Read { cancelled: _, received: None } => AnswerView {
                    ended: true,
                    ..self
                },
                AnswerHappening::Read { cancelled: _, received: Some(bytes) } => AnswerView {
                    buffer: self.buffer + stream::received_text(bytes),
                    ..self
                },
                AnswerHappening::Poll { cancelled: _ } => if stream::events(self.buffer).len() > 0 {
                    AnswerView { buffer: stream::behind_event(self.buffer), ..self }
                } else {
                    self
                },
                AnswerHappening::Data(chunks) => AnswerView {
                    collector: self.collector.after_all(chunks),
                    ..self
                },
            }
        }
    }

    /// What it calls for that something happens. A cancelled answer calls for the report of what
    /// has arrived, where it is still due, and for the piece that tells of the cancellation. An
    /// answer that has ended calls for nothing.
    pub open spec fn steps(self, h: AnswerHappening) -> Seq<CollectStepView> {
        if self.is_cancelled_by(h) {
            self.collector.steps_all(seq![ChunkView::Cancelled])
        } else {
            match h {
                AnswerHappening::Data(chunks) => if self.ended {
                    seq![]
                } else {
                    self.collector.steps_all(chunks)
                },
                _ => seq![],
            }
        }
    }

    /// The answer after several things happened.
    pub open spec fn after_all(self, hs: Seq<AnswerHappening>) -> AnswerView
        decreases hs.len(),
    {
        if hs.len() == 0 {
            self
        } else {
            self.after_all(hs.drop_last()).after(hs.last())
        }
    }

    /// What several happenings call for.
    pub open spec fn steps_all(self, hs: Seq<AnswerHappening>) -> Seq<CollectStepView>
        decreases hs.len(),
    {
        if hs.len() == 0 {
            seq![]
        } else {
            self.steps_all(hs.drop_last()) + self.after_all(hs.drop_last()).steps(hs.last())
        }
    }
}

/// What happens one after the other happens to the answer that went before.
pub proof fn lemma_happenings_add(
    answer: AnswerView,
    first: Seq<AnswerHappening>,
    second: Seq<AnswerHappening>,
)
    ensures
        answer.after_all(first + second) == answer.after_all(first).after_all(second),
        answer.steps_all(first + second) == answer.steps_all(first) + answer.after_all(
            first,
        ).steps_all(second),
    decreases second.len(),
{
    let both = first + second;
    if second.len() == 0 {
        assert(both =~= first);
        assert(answer.steps_all(both) =~= answer.steps_all(first) + answer.after_all(
            first,
        ).steps_all(second));
    } else {
        assert(both.drop_last() =~= first + second.drop_last());
        assert(both.last() == second.last());
        lemma_happenings_add(answer, first, second.drop_last());
        assert(answer.steps_all(both) =~= answer.steps_all(first) + answer.after_all(
            first,
        ).steps_all(second));
    }
}

/// Once an answer has ended, nothing is handed on and nothing changes, whatever happens.
pub proof fn law_ended_answer_hands_nothing_on(answer: AnswerView, hs: Seq<AnswerHappening>)
    requires
        answer.ended,
    ensures
        answer.after_all(hs) == answer,
        answer.steps_all(hs) == Seq::<CollectStepView>::empty(),
    decreases hs.len(),
{
    if hs.len() > 0 {
        law_ended_answer_hands_nothing_on(answer, hs.drop_last());
        assert(answer.steps_all(hs) =~= Seq::<CollectStepView>::empty());
    }
}

/// Nothing is handed on after a cancellation: whatever happened before and happens later, the
/// steps end with the piece that tells of the cancellation.
pub proof fn law_nothing_follows_a_cancellation(
    answer: AnswerView,
    before: Seq<AnswerHappening>,
    h: AnswerHappening,
    later: Seq<AnswerHappening>,
)
    requires
        answer.after_all(before).is_cancelled_by(h),
    ensures
        answer.steps_all(before.push(h) + later) == answer.steps_all(before) + answer.after_all(
            before,
        ).collector.steps_all(seq![ChunkView::Cancelled]),
        answer.steps_all(before.push(h) + later).len() > 0,
        answer.steps_all(before.push(h) + later).last() == CollectStepView::Yield(
            ChunkView::Cancelled,
        ),
        answer.after_all(before.push(h) + later).ended,
{
    let until = before.push(h);
    let here = answer.after_all(before);
    assert(until.drop_last() =~= before);
    lemma_happenings_add(answer, until, later);
    law_ended_answer_hands_nothing_on(answer.after_all(until), later);
    let last = here.collector.steps_all(seq![ChunkView::Cancelled]);
    assert(seq![ChunkView::Cancelled].drop_last() =~= seq![]);
    reveal_with_fuel(CollectorView::steps_all, 2);
    reveal_with_fuel(CollectorView::after_all, 2);
    assert(last =~= here.collector.steps(ChunkView::Cancelled));
    assert(answer.steps_all(until + later) =~= answer.steps_all(before) + last);
}

/// The bytes that were received, where reading did not fail.
pub open spec fn bytes_of(received: Option<&[u8]>) -> Option<Seq<u8>> {
    match received {
        Some(bytes) => Some(bytes@),
        None => None,
    }
}

impl AnswerStream {
    /// An answer whose full text nobody waits for.
    pub fn new() -> (r: Self)
        ensures
            r@ == AnswerView::fresh(CollectorView::silent()),
    {
        AnswerStream {
            sse: SseStream::new(),
            collector: ResponseCollector::silent(),
            ended: false,
        }
    }

    /// An answer whose full text is reported at its end.
    pub fn with_report() -> (r: Self)
        ensures
            r@ == AnswerView::fresh(CollectorView::fresh()),
    {
        AnswerStream { sse: SseStream::new(), collector: ResponseCollector::new(), ended: false }
    }

    fn cancel(&mut self) -> (r: Vec<CollectStep>)
        ensures
            final(self)@ == (AnswerView {
                collector: old(self)@.collector.after_all(seq![ChunkView::Cancelled]),
                ended: true,
                ..old(self)@
            }),
            views::of(r@) == old(self)@.collector.steps_all(seq![ChunkView::Cancelled]),
    {
        broadcast use views::group_views;

        let mut chunks: Vec<LlmChunk> = Vec::new();
        chunks.push(LlmChunk::Cancelled);
        assert(views::of(chunks@) =~= seq![ChunkView::Cancelled]);
        self.ended = true;
        self.collector.collect(chunks)
    }

    /// Takes in what was read from the connection: bytes, or nothing where reading failed.
    pub fn on_read(&mut self, cancelled: bool, received: Option<&[u8]>) -> (r: AnswerRead)
        ensures
            ({
                let h = AnswerHappening::Read { cancelled, received: bytes_of(received) };
                &&& final(self)@ == old(self)@.after(h)
                &&& match r {
                    AnswerRead::Cancelled(steps) => {
                        &&& old(self)@.is_cancelled_by(h)
                        &&& views::of(steps@) == old(self)@.steps(h)
                    },
                    AnswerRead::Ended => !old(self)@.is_cancelled_by(h) && final(self)@.ended,
                    AnswerRead::Buffered => !final(self)@.ended,
                }
            }),
    {
        if self.ended {
            return AnswerRead::Ended;
        }
        match self.sse.on_read(cancelled, received) {
            ReadStep::Cancelled => AnswerRead::Cancelled(self.cancel()),
            ReadStep::Failed => {
                self.ended = true;
                AnswerRead::Ended
            },
            ReadStep::Buffered => AnswerRead::Buffered,
        }
    }

    /// Takes the next complete event out of what was read.
    pub fn poll(&mut self, cancelled: bool) -> (r: AnswerPoll)
        ensures
            ({
                let h = AnswerHappening::Poll { cancelled };
                let events = stream::events(old(self)@.buffer);
                &&& final(self)@ == old(self)@.after(h)
                &&& match r {
                    AnswerPoll::Pending => old(self)@.ended || events.len() == 0,
                    AnswerPoll::Cancelled(steps) => {
                        &&& old(self)@.is_cancelled_by(h)
                        &&& views::of(steps@) == old(self)@.steps(h)
                    },
                    AnswerPoll::Event(data) => {
                        &&& !final(self)@.ended
                        &&& events.len() > 0
                        &&& views::of(data@) == stream::event_data(events[0])
                        &&& final(self)@.buffer.len() < old(self)@.buffer.len()
                    },
                }
            }),
    {
        if self.ended {
            return AnswerPoll::Pending;
        }
        match self.sse.poll(cancelled) {
            SsePoll::Pending => AnswerPoll::Pending,
            SsePoll::Cancelled => AnswerPoll::Cancelled(self.cancel()),
            SsePoll::Event(data) => AnswerPoll::Event(data),
        }
    }

    /// Takes in what a line of an event carried.
    pub fn on_data(&mut self, data: &ParsedData) -> (r: Vec<CollectStep>)
        ensures
            final(self)@ == old(self)@.after(AnswerHappening::Data(data.chunks())),
            views::of(r@) == old(self)@.steps(AnswerHappening::Data(data.chunks())),
    {
        broadcast use views::group_views;

        let mut chunks: Vec<LlmChunk> = Vec::new();
        if self.ended {
            let r: Vec<CollectStep> = Vec::new();
            assert(views::of(r@) =~= seq![]);
            return r;
        }
        match data {
            ParsedData::Done => {
                chunks.push(LlmChunk::Done);
            },
            ParsedData::Chunk(chunk) => {
                chunks = chunks_of(chunk);
            },
            ParsedData::Unreadable => {},
        }
        assert(views::of(chunks@) =~= data.chunks());
        self.collector.collect(chunks)
    }
}

/// What a line carried is handed on: of an object every character of its text, in order; of the
/// marker the end; of a text that is no object nothing. Whoever waits for the full answer gets what
/// was handed on before the first end, before the end itself.
pub proof fn law_lines_are_handed_on(
    a: &mut AnswerStream,
    data: &ParsedData,
    r: Vec<CollectStep>,
    pieces: Vec<LlmChunk>,
)
    requires
        call_ensures(AnswerStream::on_data, (a, data), r),
        !old(a)@.ended,
        data matches ParsedData::Chunk(chunk) ==> call_ensures(chunks_of, (chunk,), pieces),
    ensures
        match data {
            ParsedData::Chunk(chunk) => {
                &&& stream::yielded(views::of(r@)) == views::of(pieces@)
                &&& stream::yielded_text(views::of(r@)) == stream::contents(chunk.choices@)
            },
            ParsedData::Done => {
                &&& stream::yielded(views::of(r@)) == seq![ChunkView::Done]
                &&& !old(a)@.collector.reported ==> r@.len() == 2 && (r@[0]
                    matches CollectStep::Report(full) && full@ == old(a)@.collector.full)
                &&& final(a)@.collector.reported
            },
            ParsedData::Unreadable => r@.len() == 0,
        },
        final(a)@.collector.full == old(a)@.collector.full + stream::yielded_text(views::of(r@)),
        final(a)@.buffer == old(a)@.buffer,
        !final(a)@.ended,
{
    let c = old(a)@.collector;
    stream::lemma_yielded_all(c, data.chunks());
    match data {
        ParsedData::Chunk(chunk) => {
            stream::lemma_text_of_choices(chunk.choices@);
        },
        ParsedData::Done => {
            let chunks = seq![ChunkView::Done];
            assert(chunks.drop_last() =~= seq![]);
            reveal_with_fuel(CollectorView::steps_all, 2);
            reveal_with_fuel(CollectorView::after_all, 2);
            assert(c.steps_all(chunks) =~= c.steps(ChunkView::Done));
            assert(forall|i: int| 0 <= i < r@.len() ==> views::of(r@)[i] == (#[trigger] r@[i])@);
        },
        ParsedData::Unreadable => {},
    }
}

/// A request that is found cancelled when bytes have come is over: the steps end with the piece
/// that tells of it, the bytes are not looked at, and nothing happens any more. One that is not
/// takes the bytes in, or ends where there are none.
pub proof fn law_flag_ends_reading(
    a: &mut AnswerStream,
    cancelled: bool,
    received: Option<&[u8]>,
    r: AnswerRead,
)
    requires
        call_ensures(AnswerStream::on_read, (a, cancelled, received), r),
        !old(a)@.ended,
    ensures
        cancelled ==> final(a)@.ended && (r matches AnswerRead::Cancelled(steps) && steps@.len() > 0
            && steps@.last()@ == CollectStepView::Yield(ChunkView::Cancelled) && stream::yielded(
            views::of(steps@),
        ) == seq![ChunkView::Cancelled] && (!old(a)@.collector.reported ==> steps@[0]@
            == CollectStepView::Report(old(a)@.collector.full))),
        !cancelled && received is Some ==> r is Buffered && !final(a)@.ended
            && final(a)@.collector == old(a)@.collector,
        !cancelled && received is None ==> r is Ended && final(a)@.ended,
{
    if cancelled {
        lemma_cancel_steps(old(a)@.collector);
        if let AnswerRead::Cancelled(steps) = r {
            assert(forall|i: int|
                0 <= i < steps@.len() ==> views::of(steps@)[i] == (#[trigger] steps@[i])@);
        }
    }
}

proof fn lemma_cancel_steps(c: CollectorView)
    ensures
        ({
            let steps = c.steps_all(seq![ChunkView::Cancelled]);
            &&& steps.len() > 0
            &&& steps.last() == CollectStepView::Yield(ChunkView::Cancelled)
            &&& stream::yielded(steps) == seq![ChunkView::Cancelled]
            &&& !c.reported ==> steps[0] == CollectStepView::Report(c.full)
        }),
{
    let chunks = seq![ChunkView::Cancelled];
    stream::lemma_yielded_all(c, chunks);
    assert(chunks.drop_last() =~= seq![]);
    reveal_with_fuel(CollectorView::steps_all, 2);
    reveal_with_fuel(CollectorView::after_all, 2);
    assert(c.steps_all(chunks) =~= c.steps(ChunkView::Cancelled));
}

/// The next event is what stands before the first empty line: where the flag says nothing, it is
/// read and what stands behind it is left; where it says that the request is cancelled, the event
/// is not read and the answer is over.
pub proof fn law_next_event_or_the_end(
    a: &mut AnswerStream,
    cancelled: bool,
    event: Seq<char>,
    rest: Seq<char>,
    r: AnswerPoll,
)
    requires
        call_ensures(AnswerStream::poll, (a, cancelled), r),
        !old(a)@.ended,
        !stream::has_empty_line(event.push('\n')),
        old(a)@.buffer == event + seq!['\n', '\n'] + rest,
    ensures
        !cancelled ==> (r matches AnswerPoll::Event(data) && views::of(data@)
            == stream::event_data(event)) && final(a)@ == (AnswerView { buffer: rest, ..old(a)@ }),
        cancelled ==> final(a)@.ended && (r matches AnswerPoll::Cancelled(steps) && steps@.len() > 0
            && steps@.last()@ == CollectStepView::Yield(ChunkView::Cancelled) && stream::yielded(
            views::of(steps@),
        ) == seq![ChunkView::Cancelled] && (!old(a)@.collector.reported ==> steps@[0]@
            == CollectStepView::Report(old(a)@.collector.full))),
{
    stream::lemma_first_event(event, rest);
    lemma_cancel_steps(old(a)@.collector);
    if let AnswerPoll::Cancelled(steps) = r {
        assert(forall|i: int|
            0 <= i < steps@.len() ==> views::of(steps@)[i] == (#[trigger] steps@[i])@);
    }
}

/// Without an empty line there is no event, and nothing changes.
pub proof fn law_no_event_without_an_empty_line(a: &mut AnswerStream, cancelled: bool, r: AnswerPoll)
    requires
        call_ensures(AnswerStream::poll, (a, cancelled), r),
        !stream::has_empty_line(old(a)@.buffer),
    ensures
        r is Pending,
        final(a)@ == old(a)@,
{
    stream::lemma_no_event(old(a)@.buffer);
}

/// An answer begins with nothing read and nothing collected; only with a report does somebody wait
/// for the full text. Once it has ended nothing is handed on and nothing changes.
pub proof fn law_answers_begin_and_end(
    silent: AnswerStream,
    waited: AnswerStream,
    a: &mut AnswerStream,
    data: &ParsedData,
    r: Vec<CollectStep>,
    b: &mut AnswerStream,
    cancelled: bool,
    received: Option<&[u8]>,
    read: AnswerRead,
    c: &mut AnswerStream,
    poll: AnswerPoll,
)
    requires
        call_ensures(AnswerStream::new, (), silent),
        call_ensures(AnswerStream::with_report, (), waited),
        call_ensures(AnswerStream::on_data, (a, data), r),
        call_ensures(AnswerStream::on_read, (b, cancelled, received), read),
        call_ensures(AnswerStream::poll, (c, cancelled), poll),
    ensures
        silent@.buffer.len() == 0 && silent@.collector.full.len() == 0 && !silent@.ended,
        waited@.buffer.len() == 0 && waited@.collector.full.len() == 0 && !waited@.ended,
        silent@.collector.reported,
        !waited@.collector.reported,
        old(a)@.ended ==> r@.len() == 0 && final(a)@ == old(a)@,
        old(b)@.ended ==> read is Ended && final(b)@ == old(b)@,
        old(c)@.ended ==> poll is Pending && final(c)@ == old(c)@,
{
    assert(views::of(r@).len() == r@.len());
}

} // verus!
