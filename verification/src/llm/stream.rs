//! Reading a streamed answer: server-sent events in, pieces of the answer out.

use vstd::prelude::*;
use vstd::string::*;

use crate::text::{chars_of, lines_of, strip_prefix, text_eq, trim_text};
use crate::{text, views};

verus! {

/// A piece of a streamed answer.
#[derive(Debug, PartialEq, Eq)]
pub enum LlmChunk {
    /// A part of its text.
    Delta(String),
    /// The answer ended normally.
    Done,
    /// The answer was cancelled.
    Cancelled,
}

/// The mathematical counterpart of an [`LlmChunk`].
pub enum ChunkView {
    Delta(Seq<char>),
    Done,
    Cancelled,
}

impl View for LlmChunk {
    type V = ChunkView;

    open spec fn view(&self) -> ChunkView {
        match *self {
            LlmChunk::Delta(s) => ChunkView::Delta(s@),
            LlmChunk::Done => ChunkView::Done,
            LlmChunk::Cancelled => ChunkView::Cancelled,
        }
    }
}

impl Clone for LlmChunk {
    fn clone(&self) -> (r: Self)
        ensures
            r@ == self@,
    {
        match self {
            LlmChunk::Delta(s) => LlmChunk::Delta(s.clone()),
            LlmChunk::Done => LlmChunk::Done,
            LlmChunk::Cancelled => LlmChunk::Cancelled,
        }
    }
}

/// What one choice of a streamed object adds to the answer.
#[derive(Debug)]
pub struct StreamDelta {
    pub content: Option<String>,
}

/// One choice of a streamed object.
#[derive(Debug)]
pub struct StreamChoice {
    pub delta: StreamDelta,
    pub finish_reason: Option<String>,
}

/// A streamed object.
#[derive(Debug)]
pub struct StreamChunk {
    pub choices: Vec<StreamChoice>,
}

/// The mathematical counterpart of a [`StreamChoice`].
pub struct ChoiceView {
    pub content: Option<Seq<char>>,
    pub finished: bool,
}

impl View for StreamChoice {
    type V = ChoiceView;

    open spec fn view(&self) -> ChoiceView {
        ChoiceView {
            content: views::opt(self.delta.content),
            finished: self.finish_reason is Some,
        }
    }
}

impl ChoiceView {
    /// The pieces that the choice stands for: its text, where there is any, and the end of the
    /// answer, where a reason for it is given.
    pub open spec fn chunks(self) -> Seq<ChunkView> {
        let text = match self.content {
            Some(t) => if t.len() > 0 {
                seq![ChunkView::Delta(t)]
            } else {
                seq![]
            },
            None => seq![],
        };
        if self.finished {
            text.push(ChunkView::Done)
        } else {
            text
        }
    }
}

/// The pieces that choices stand for, one choice after the other.
pub open spec fn chunks_of_choices(choices: Seq<ChoiceView>) -> Seq<ChunkView>
    decreases choices.len(),
{
    if choices.len() == 0 {
        seq![]
    } else {
        chunks_of_choices(choices.drop_last()) + choices.last().chunks()
    }
}

/// The pieces that a streamed object stands for.
pub fn chunks_of(chunk: &StreamChunk) -> (r: Vec<LlmChunk>)
    ensures
        views::of(r@) == chunks_of_choices(views::of(chunk.choices@)),
{
    broadcast use views::group_views;

    let mut r: Vec<LlmChunk> = Vec::new();
    let n: usize = chunk.choices.len();
    let mut i: usize = 0;
    let ghost all = views::of(chunk.choices@);
    while i < n
        invariant
            i <= n,
            n == chunk.choices@.len(),
            all == views::of(chunk.choices@),
            views::of(r@) == chunks_of_choices(all.take(i as int)),
        decreases n - i,
    {
        broadcast use views::group_views;

        let choice = &chunk.choices[i];
        let ghost before = views::of(r@);
        assert(choice@ == all[i as int]);
        if let Some(content) = &choice.delta.content {
            if !content.as_str().is_empty() {
                r.push(LlmChunk::Delta(content.clone()));
            }
        }
        if choice.finish_reason.is_some() {
            r.push(LlmChunk::Done);
        }
        assert(all.take(i + 1).drop_last() =~= all.take(i as int));
        assert(views::of(r@) =~= before + choice@.chunks());
        i = i + 1;
    }
    assert(all.take(n as int) =~= all);
    r
}

/// The position of the first empty line in `s`, which ends an event, or the length of `s` where
/// there is none.
pub open spec fn event_end(s: Seq<char>) -> nat
    decreases s.len(),
{
    if s.len() < 2 {
        s.len()
    } else if s[0] == '\n' && s[1] == '\n' {
        0
    } else {
        1 + event_end(s.drop_first())
    }
}

/// The events that `s` holds completely.
pub open spec fn events(s: Seq<char>) -> Seq<Seq<char>>
    decreases s.len(),
{
    let e = event_end(s) as int;
    if e >= s.len() {
        seq![]
    } else {
        proof {
            lemma_event_end(s);
        }
        seq![s.take(e)] + events(behind_event(s))
    }
}

/// What is left of `s` behind the events that it holds completely.
pub open spec fn remainder(s: Seq<char>) -> Seq<char>
    decreases s.len(),
{
    let e = event_end(s) as int;
    if e >= s.len() {
        s
    } else {
        proof {
            lemma_event_end(s);
        }
        remainder(behind_event(s))
    }
}

/// What follows the first event of `s` and the empty line that ends it.
pub open spec fn behind_event(s: Seq<char>) -> Seq<char> {
    s.skip(event_end(s) as int + 2)
}

/// An event ends at the first two line feeds in a row.
pub proof fn lemma_event_end(s: Seq<char>)
    ensures
        event_end(s) <= s.len(),
        event_end(s) < s.len() ==> event_end(s) + 1 < s.len() && s[event_end(s) as int] == '\n'
            && s[event_end(s) as int + 1] == '\n',
        forall|j: int| 0 <= j < event_end(s) && j + 1 < s.len() ==> !(#[trigger] s[j] == '\n' && s[j
            + 1] == '\n'),
    decreases s.len(),
{
    if s.len() >= 2 && !(s[0] == '\n' && s[1] == '\n') {
        let t = s.drop_first();
        lemma_event_end(t);
        assert forall|j: int| 0 <= j < event_end(s) && j + 1 < s.len() implies !(#[trigger] s[j]
            == '\n' && s[j + 1] == '\n') by {
            if j > 0 {
                assert(t[j - 1] == s[j]);
                assert(t[j] == s[j + 1]);
            }
        }
    }
}

/// Two line feeds in a row, with none such before them, end the event.
proof fn lemma_is_event_end(s: Seq<char>, e: int)
    requires
        0 <= e,
        e + 1 < s.len(),
        s[e] == '\n',
        s[e + 1] == '\n',
        forall|j: int| 0 <= j < e ==> !(#[trigger] s[j] == '\n' && s[j + 1] == '\n'),
    ensures
        event_end(s) == e,
{
    lemma_event_end(s);
    let p = event_end(s) as int;
    if p < e {
        assert(s[p] == '\n');
    } else if p > e {
        assert(s[e] == '\n');
    }
}

/// Where no two line feeds stand in a row there is no end of an event.
proof fn lemma_no_event_end(s: Seq<char>)
    requires
        forall|j: int| 0 <= j && j + 1 < s.len() ==> !(#[trigger] s[j] == '\n' && s[j + 1] == '\n'),
    ensures
        event_end(s) == s.len(),
{
    lemma_event_end(s);
    let p = event_end(s) as int;
    if p < s.len() {
        assert(s[p] == '\n');
    }
}

/// Events as they are written: each with the empty line that ends it.
pub open spec fn written(events: Seq<Seq<char>>) -> Seq<char>
    decreases events.len(),
{
    if events.len() == 0 {
        seq![]
    } else {
        events[0] + seq!['\n', '\n'] + written(events.drop_first())
    }
}

/// Nothing is lost: the events as they are written, followed by what is left, are the text.
pub proof fn law_nothing_is_lost(s: Seq<char>)
    ensures
        written(events(s)) + remainder(s) == s,
    decreases s.len(),
{
    lemma_event_end(s);
    let e = event_end(s) as int;
    if e >= s.len() {
        assert(written(events(s)) + remainder(s) =~= s);
    } else {
        let rest = s.skip(e + 2);
        law_nothing_is_lost(rest);
        assert(events(s).drop_first() =~= events(rest));
        assert(written(events(s)) + remainder(s) =~= s.take(e) + seq!['\n', '\n'] + (written(
            events(rest),
        ) + remainder(rest)));
        assert(s.take(e) + seq!['\n', '\n'] + rest =~= s);
    }
}

/// Which events are read does not depend on how the text arrives: what `a` leaves over, continued
/// by `b`, holds the events that `a` and `b` in one hold beyond those of `a`.
pub proof fn law_arrival_does_not_matter(a: Seq<char>, b: Seq<char>)
    ensures
        events(a + b) == events(a) + events(remainder(a) + b),
        remainder(a + b) == remainder(remainder(a) + b),
    decreases a.len(),
{
    lemma_event_end(a);
    let e = event_end(a) as int;
    if e >= a.len() {
        assert(events(a) + events(remainder(a) + b) =~= events(a + b));
    } else {
        let ab = a + b;
        let rest = a.skip(e + 2);
        assert forall|j: int| 0 <= j < e implies !(#[trigger] ab[j] == '\n' && ab[j + 1]
            == '\n') by {
            assert(ab[j] == a[j]);
            assert(ab[j + 1] == a[j + 1]);
        }
        lemma_is_event_end(ab, e);
        assert(ab.take(e) =~= a.take(e));
        assert(ab.skip(e + 2) =~= rest + b);
        law_arrival_does_not_matter(rest, b);
        assert(events(a + b) =~= events(a) + events(remainder(a) + b));
    }
}

/// What a line of an event carries.
#[derive(Debug)]
pub enum SseData {
    /// The marker behind the last object.
    Done,
    /// The text of an object.
    Payload(String),
}

/// The mathematical counterpart of an [`SseData`].
pub enum DataView {
    Done,
    Payload(Seq<char>),
}

impl View for SseData {
    type V = DataView;

    open spec fn view(&self) -> DataView {
        match *self {
            SseData::Done => DataView::Done,
            SseData::Payload(s) => DataView::Payload(s@),
        }
    }
}

/// What a line carries, where it is one that carries data.
pub open spec fn line_data(line: Seq<char>) -> Option<DataView> {
    if "data: "@.is_prefix_of(line) {
        let data = line.skip("data: "@.len() as int);
        if text::trimmed(data) == "[DONE]"@ {
            Some(DataView::Done)
        } else {
            Some(DataView::Payload(data))
        }
    } else {
        None
    }
}

/// What lines carry, in order.
pub open spec fn lines_data(lines: Seq<Seq<char>>) -> Seq<DataView>
    decreases lines.len(),
{
    if lines.len() == 0 {
        seq![]
    } else {
        match line_data(lines.last()) {
            Some(data) => lines_data(lines.drop_last()).push(data),
            None => lines_data(lines.drop_last()),
        }
    }
}

/// What an event carries.
pub open spec fn event_data(event: Seq<char>) -> Seq<DataView> {
    lines_data(text::lines(event))
}

/// Reads what an event carries.
pub fn read_event(event: &str) -> (r: Vec<SseData>)
    ensures
        views::of(r@) == event_data(event@),
{
    broadcast use views::group_views;

    let lines = lines_of(event);
    let ghost all = views::of(lines@);
    let n: usize = lines.len();
    let mut r: Vec<SseData> = Vec::new();
    let mut i: usize = 0;
    while i < n
        invariant
            i <= n,
            n == lines@.len(),
            all == views::of(lines@),
            views::of(r@) == lines_data(all.take(i as int)),
        decreases n - i,
    {
        broadcast use views::group_views;

        let line = lines[i].as_str();
        assert(line@ == all[i as int]);
        assert(all.take(i + 1).drop_last() =~= all.take(i as int));
        if let Some(data) = strip_prefix(line, "data: ") {
            assert(line@.skip("data: "@.len() as int) =~= data@);
            assert(line@.subrange(0, "data: "@.len() as int) =~= "data: "@);
            if text_eq(trim_text(data), "[DONE]") {
                r.push(SseData::Done);
            } else {
                r.push(SseData::Payload(data.to_owned()));
            }
        }
        i = i + 1;
    }
    assert(all.take(n as int) =~= all);
    r
}

/// The text of bytes in which invalid UTF-8 is replaced: the result of `String::from_utf8_lossy`.
pub uninterp spec fn utf8_lossy(bytes: Seq<u8>) -> Seq<char>;

/// `String::from_utf8_lossy`: the text of `bytes`, in which each invalid sequence is replaced by
/// U+FFFD. Of bytes that are valid UTF-8 it is the text that they encode; which replacements
/// invalid bytes lead to is left to the name.
#[verifier::external_body]
fn decode_lossy(bytes: &[u8]) -> (r: String)
    ensures
        r@ == utf8_lossy(bytes@),
        vstd::utf8::valid_utf8(bytes@) ==> r@ == vstd::utf8::decode_utf8(bytes@),
{
    String::from_utf8_lossy(bytes).into_owned()
}

/// The text that bytes from the connection are taken for: the text that they encode, or one with
/// replacements where they are no valid UTF-8.
pub open spec fn received_text(bytes: Seq<u8>) -> Seq<char> {
    if vstd::utf8::valid_utf8(bytes) {
        vstd::utf8::decode_utf8(bytes)
    } else {
        utf8_lossy(bytes)
    }
}

/// What came out of a look for the next event.
#[derive(Debug)]
pub enum SsePoll {
    /// No event is complete yet.
    Pending,
    /// An event is complete, but the request was cancelled.
    Cancelled,
    /// What the next event carries.
    Event(Vec<SseData>),
}

/// What came out of an attempt to read from the connection.
#[derive(Debug, Clone, Copy, PartialEq, Eq, Structural)]
pub enum ReadStep {
    /// The request was cancelled; nothing was taken in.
    Cancelled,
    /// The connection failed; the stream ends here.
    Failed,
    /// The bytes were taken in.
    Buffered,
}

/// The text of a stream that no complete event was found in yet.
pub struct SseStream {
    buffer: String,
}

impl View for SseStream {
    type V = Seq<char>;

    closed spec fn view(&self) -> Seq<char> {
        self.buffer@
    }
}

impl SseStream {
    /// A stream of which nothing has arrived.
    pub fn new() -> (r: Self)
        ensures
            r@ == Seq::<char>::empty(),
    {
        SseStream { buffer: String::new() }
    }

    /// Takes in what was read from the connection: bytes, or nothing where reading failed.
    pub fn on_read(&mut self, cancelled: bool, received: Option<&[u8]>) -> (r: ReadStep)
        ensures
            cancelled ==> r == ReadStep::Cancelled && final(self)@ == old(self)@,
            !cancelled && received is None ==> r == ReadStep::Failed && final(self)@ == old(self)@,
            !cancelled && received is Some ==> r == ReadStep::Buffered && final(self)@ == old(
                self,
            )@ + received_text(received->0@),
    {
        if cancelled {
            return ReadStep::Cancelled;
        }
        match received {
            Some(bytes) => {
                let text = decode_lossy(bytes);
                self.push_text(text.as_str());
                ReadStep::Buffered
            },
            None => ReadStep::Failed,
        }
    }

    /// Takes in text that arrived.
    pub fn push_text(&mut self, text: &str)
        ensures
            final(self)@ == old(self)@ + text@,
    {
        self.buffer.append(text);
    }

    /// Takes the next complete event out.
    pub fn poll(&mut self, cancelled: bool) -> (r: SsePoll)
        ensures
            match r {
                SsePoll::Pending => {
                    &&& events(old(self)@).len() == 0
                    &&& final(self)@ == old(self)@
                },
                SsePoll::Cancelled => {
                    &&& cancelled
                    &&& events(old(self)@).len() > 0
                    &&& final(self)@ == old(self)@
                },
                SsePoll::Event(data) => {
                    &&& !cancelled
                    &&& events(old(self)@).len() > 0
                    &&& views::of(data@) == event_data(events(old(self)@)[0])
                    &&& final(self)@ == behind_event(old(self)@)
                    &&& final(self)@.len() < old(self)@.len()
                },
            },
    {
        let chars = chars_of(self.buffer.as_str());
        let ghost all = self.buffer@;
        let n: usize = chars.len();
        let mut i: usize = 0;
        while i < n && !(chars[i] == '\n' && i + 1 < n && chars[i + 1] == '\n')
            invariant
                i <= n,
                n == chars@.len(),
                chars@ == all,
                forall|j: int|
                    0 <= j < i && j + 1 < n ==> !(#[trigger] all[j] == '\n' && all[j + 1] == '\n'),
            decreases n - i,
        {
            i = i + 1;
        }
        if i >= n {
            proof {
                lemma_no_event_end(all);
            }
            return SsePoll::Pending;
        }
        proof {
            lemma_is_event_end(all, i as int);
            assert(events(all)[0] == all.take(i as int));
        }
        if cancelled {
            return SsePoll::Cancelled;
        }
        let event = self.buffer.as_str().substring_char(0, i).to_owned();
        assert(event@ =~= all.take(i as int));
        let rest = self.buffer.as_str().substring_char(i + 2, n).to_owned();
        assert(rest@ =~= all.skip(i + 2));
        self.buffer = rest;
        SsePoll::Event(read_event(event.as_str()))
    }
}

/// What collecting a streamed answer calls for.
#[derive(Debug)]
pub enum CollectStep {
    /// Report the full answer to whoever waits for it.
    Report(String),
    /// Hand a piece on.
    Yield(LlmChunk),
}

/// The mathematical counterpart of a [`CollectStep`].
pub enum CollectStepView {
    Report(Seq<char>),
    Yield(ChunkView),
}

impl View for CollectStep {
    type V = CollectStepView;

    open spec fn view(&self) -> CollectStepView {
        match *self {
            CollectStep::Report(s) => CollectStepView::Report(s@),
            CollectStep::Yield(c) => CollectStepView::Yield(c@),
        }
    }
}

/// The mathematical counterpart of a [`ResponseCollector`].
pub struct CollectorView {
    pub full: Seq<char>,
    pub reported: bool,
}

impl CollectorView {
    /// A collector that has seen nothing.
    pub open spec fn fresh() -> CollectorView {
        CollectorView { full: seq![], reported: false }
    }

    /// A collector that has seen nothing, of an answer whose full text nobody waits for.
    pub open spec fn silent() -> CollectorView {
        CollectorView { full: seq![], reported: true }
    }

    /// The collector after a piece.
    pub open spec fn after(self, chunk: ChunkView) -> CollectorView {
        match chunk {
            ChunkView::Delta(text) => CollectorView { full: self.full + text, ..self },
            _ => CollectorView { reported: true, ..self },
        }
    }

    /// What a piece calls for: text is handed on; at the first end the full answer is reported
    /// before the end is handed on.
    pub open spec fn steps(self, chunk: ChunkView) -> Seq<CollectStepView> {
        match chunk {
            ChunkView::Delta(_) => seq![CollectStepView::Yield(chunk)],
            _ => if self.reported {
                seq![CollectStepView::Yield(chunk)]
            } else {
                seq![CollectStepView::Report(self.full), CollectStepView::Yield(chunk)]
            },
        }
    }

    /// The collector after several pieces.
    pub open spec fn after_all(self, chunks: Seq<ChunkView>) -> CollectorView
        decreases chunks.len(),
    {
        if chunks.len() == 0 {
            self
        } else {
            self.after_all(chunks.drop_last()).after(chunks.last())
        }
    }

    /// What several pieces call for.
    pub open spec fn steps_all(self, chunks: Seq<ChunkView>) -> Seq<CollectStepView>
        decreases chunks.len(),
    {
        if chunks.len() == 0 {
            seq![]
        } else {
            self.steps_all(chunks.drop_last()) + self.after_all(chunks.drop_last()).steps(
                chunks.last(),
            )
        }
    }
}

/// The text that steps hand on, put together.
pub open spec fn yielded_text(steps: Seq<CollectStepView>) -> Seq<char>
    decreases steps.len(),
{
    if steps.len() == 0 {
        seq![]
    } else {
        let before = yielded_text(steps.drop_last());
        match steps.last() {
            CollectStepView::Yield(ChunkView::Delta(text)) => before + text,
            _ => before,
        }
    }
}

/// The pieces that steps hand on.
pub open spec fn yielded(steps: Seq<CollectStepView>) -> Seq<ChunkView>
    decreases steps.len(),
{
    if steps.len() == 0 {
        seq![]
    } else {
        let before = yielded(steps.drop_last());
        match steps.last() {
            CollectStepView::Yield(chunk) => before.push(chunk),
            _ => before,
        }
    }
}

proof fn lemma_yielded_push(steps: Seq<CollectStepView>, step: CollectStepView)
    ensures
        yielded_text(steps.push(step)) == match step {
            CollectStepView::Yield(ChunkView::Delta(text)) => yielded_text(steps) + text,
            _ => yielded_text(steps),
        },
        yielded(steps.push(step)) == match step {
            CollectStepView::Yield(chunk) => yielded(steps).push(chunk),
            _ => yielded(steps),
        },
{
    assert(steps.push(step).drop_last() =~= steps);
}

/// The answer that is reported is the text that was handed on before, and it is reported at most
/// once, and before any end is handed on; every piece is handed on, in order.
pub proof fn law_report_matches_stream(chunks: Seq<ChunkView>)
    ensures
        ({
            let steps = CollectorView::fresh().steps_all(chunks);
            &&& yielded(steps) == chunks
            &&& forall|i: int|
                0 <= i < steps.len() && (#[trigger] steps[i]) is Report ==> steps[i]->Report_0
                    == yielded_text(steps.take(i))
            &&& forall|i: int, j: int|
                0 <= i < j < steps.len() && (#[trigger] steps[i]) is Report ==> !((
                #[trigger] steps[j]) is Report)
            &&& forall|j: int|
                0 <= j < steps.len() && (#[trigger] steps[j]) is Yield && !(steps[j]->Yield_0 is Delta)
                    ==> exists|i: int| 0 <= i < j && (#[trigger] steps[i]) is Report
        }),
{
    lemma_collector(chunks);
}

proof fn lemma_collector(chunks: Seq<ChunkView>)
    ensures
        ({
            let steps = CollectorView::fresh().steps_all(chunks);
            let c = CollectorView::fresh().after_all(chunks);
            &&& yielded(steps) == chunks
            &&& c.full == yielded_text(steps)
            &&& c.reported <==> exists|i: int| 0 <= i < steps.len() && (#[trigger] steps[i]) is Report
            &&& forall|i: int|
                0 <= i < steps.len() && (#[trigger] steps[i]) is Report ==> steps[i]->Report_0
                    == yielded_text(steps.take(i))
            &&& forall|i: int, j: int|
                0 <= i < j < steps.len() && (#[trigger] steps[i]) is Report ==> !((
                #[trigger] steps[j]) is Report)
            &&& forall|j: int|
                0 <= j < steps.len() && (#[trigger] steps[j]) is Yield && !(steps[j]->Yield_0 is Delta)
                    ==> exists|i: int| 0 <= i < j && (#[trigger] steps[i]) is Report
        }),
    decreases chunks.len(),
{
    if chunks.len() > 0 {
        let init = chunks.drop_last();
        let last = chunks.last();
        lemma_collector(init);
        let c0 = CollectorView::fresh().after_all(init);
        let s0 = CollectorView::fresh().steps_all(init);
        let s = CollectorView::fresh().steps_all(chunks);
        let n = s0.len() as int;
        assert(chunks =~= init.push(last));
        if c0.steps(last).len() == 1 {
            assert(s =~= s0.push(c0.steps(last)[0]));
            lemma_yielded_push(s0, c0.steps(last)[0]);
        } else {
            let s1 = s0.push(c0.steps(last)[0]);
            assert(s =~= s1.push(c0.steps(last)[1]));
            lemma_yielded_push(s0, c0.steps(last)[0]);
            lemma_yielded_push(s1, c0.steps(last)[1]);
            assert(s[n] is Report);
        }
        assert(forall|i: int| 0 <= i < n ==> #[trigger] s[i] == s0[i]);
        assert forall|i: int| 0 <= i < s.len() && (#[trigger] s[i]) is Report implies s[i]->Report_0
            == yielded_text(s.take(i)) by {
            if i < n {
                assert(s0[i] is Report);
                assert(s.take(i) =~= s0.take(i));
            } else {
                assert(s.take(i) =~= s0);
            }
        }
        assert forall|j: int|
            0 <= j < s.len() && (#[trigger] s[j]) is Yield && !(s[j]->Yield_0
                is Delta) implies exists|i: int| 0 <= i < j && (#[trigger] s[i]) is Report by {
            if j < n {
                assert(s0[j] is Yield);
                let i = choose|i: int| 0 <= i < j && (#[trigger] s0[i]) is Report;
                assert(s[i] is Report);
            } else if c0.reported {
                let i = choose|i: int| 0 <= i < s0.len() && (#[trigger] s0[i]) is Report;
                assert(s[i] is Report);
            }
        }
        if c0.reported {
            let i = choose|i: int| 0 <= i < s0.len() && (#[trigger] s0[i]) is Report;
            assert(s[i] is Report);
        }
    } else {
        assert(yielded(CollectorView::fresh().steps_all(chunks)) =~= chunks);
    }
}

/// Where nobody waits for the full text, the steps do nothing but hand the pieces on.
pub proof fn law_silent_collector_only_hands_on(chunks: Seq<ChunkView>)
    ensures
        CollectorView::silent().steps_all(chunks) == Seq::new(
            chunks.len(),
            |i: int| CollectStepView::Yield(chunks[i]),
        ),
        CollectorView::silent().after_all(chunks).reported,
    decreases chunks.len(),
{
    let steps = Seq::new(chunks.len(), |i: int| CollectStepView::Yield(chunks[i]));
    if chunks.len() > 0 {
        law_silent_collector_only_hands_on(chunks.drop_last());
    }
    assert(CollectorView::silent().steps_all(chunks) =~= steps);
}

/// Collects the full text of an answer while its pieces are handed on.
pub struct ResponseCollector {
    full_response: String,
    reported: bool,
}

impl View for ResponseCollector {
    type V = CollectorView;

    closed spec fn view(&self) -> CollectorView {
        CollectorView { full: self.full_response@, reported: self.reported }
    }
}

impl ResponseCollector {
    /// A collector that has seen nothing.
    pub fn new() -> (r: Self)
        ensures
            r@ == CollectorView::fresh(),
    {
        let r = ResponseCollector { full_response: String::new(), reported: false };
        assert(r@.full =~= CollectorView::fresh().full);
        r
    }

    /// A collector that has seen nothing, of an answer whose full text nobody waits for.
    pub fn silent() -> (r: Self)
        ensures
            r@ == CollectorView::silent(),
    {
        let r = ResponseCollector { full_response: String::new(), reported: true };
        assert(r@.full =~= CollectorView::silent().full);
        r
    }

    /// Takes in pieces and says what they call for.
    pub fn collect(&mut self, chunks: Vec<LlmChunk>) -> (r: Vec<CollectStep>)
        ensures
            final(self)@ == old(self)@.after_all(views::of(chunks@)),
            views::of(r@) == old(self)@.steps_all(views::of(chunks@)),
    {
        broadcast use views::group_views;

        let mut r: Vec<CollectStep> = Vec::new();
        let ghost all = views::of(chunks@);
        let ghost start = self@;
        let n: usize = chunks.len();
        let mut i: usize = 0;
        while i < n
            invariant
                i <= n,
                n == chunks@.len(),
                all == views::of(chunks@),
                self@ == start.after_all(all.take(i as int)),
                views::of(r@) == start.steps_all(all.take(i as int)),
            decreases n - i,
        {
            broadcast use views::group_views;

            let ghost before = views::of(r@);
            let ghost here = self@;
            assert(all.take(i + 1).drop_last() =~= all.take(i as int));
            assert(all.take(i + 1).last() == all[i as int]);
            assert(chunks@[i as int]@ == all[i as int]);
            match &chunks[i] {
                LlmChunk::Delta(text) => {
                    self.full_response.append(text.as_str());
                },
                _ => {
                    if !self.reported {
                        r.push(CollectStep::Report(self.full_response.clone()));
                        self.reported = true;
                    }
                },
            }
            r.push(CollectStep::Yield(chunks[i].clone()));
            assert(self@.full =~= here.after(all[i as int]).full);
            assert(views::of(r@) =~= before + here.steps(all[i as int]));
            i = i + 1;
        }
        assert(all.take(n as int) =~= all);
        r
    }
}

/// The text of pieces, put together.
pub open spec fn text_of(chunks: Seq<ChunkView>) -> Seq<char>
    decreases chunks.len(),
{
    if chunks.len() == 0 {
        seq![]
    } else {
        match chunks.last() {
            ChunkView::Delta(text) => text_of(chunks.drop_last()) + text,
            _ => text_of(chunks.drop_last()),
        }
    }
}

/// What the choices of a streamed object add to the answer, put together.
pub open spec fn contents(choices: Seq<StreamChoice>) -> Seq<char>
    decreases choices.len(),
{
    if choices.len() == 0 {
        seq![]
    } else {
        match choices.last().delta.content {
            Some(content) => contents(choices.drop_last()) + content@,
            None => contents(choices.drop_last()),
        }
    }
}

proof fn lemma_text_of_add(a: Seq<ChunkView>, b: Seq<ChunkView>)
    ensures
        text_of(a + b) == text_of(a) + text_of(b),
    decreases b.len(),
{
    if b.len() == 0 {
        assert(a + b =~= a);
        assert(text_of(a) + text_of(b) =~= text_of(a));
    } else {
        assert((a + b).drop_last() =~= a + b.drop_last());
        assert((a + b).last() == b.last());
        lemma_text_of_add(a, b.drop_last());
        assert(text_of(a + b) =~= text_of(a) + text_of(b));
    }
}

pub proof fn lemma_text_of_choices(choices: Seq<StreamChoice>)
    ensures
        text_of(chunks_of_choices(views::of(choices))) == contents(choices),
        forall|i: int|
            0 <= i < chunks_of_choices(views::of(choices)).len() ==> {
                let c = #[trigger] chunks_of_choices(views::of(choices))[i];
                &&& !(c is Cancelled)
                &&& c matches ChunkView::Delta(t) ==> t.len() > 0
            },
    decreases choices.len(),
{
    let all = views::of(choices);
    if choices.len() > 0 {
        let init = choices.drop_last();
        let last = choices.last();
        lemma_text_of_choices(init);
        assert(all.drop_last() =~= views::of(init));
        assert(all.last() == last@);
        let before = chunks_of_choices(views::of(init));
        let new = last@.chunks();
        lemma_text_of_add(before, new);
        reveal_with_fuel(text_of, 3);
        let text = match last.delta.content {
            Some(content) => content@,
            None => seq![],
        };
        if text.len() > 0 {
            assert(seq![ChunkView::Delta(text)].drop_last() =~= seq![]);
            assert(text_of(seq![ChunkView::Delta(text)]) =~= text);
        } else {
            assert(text =~= seq![]);
        }
        if last.finish_reason is Some {
            assert(new.drop_last() =~= if text.len() > 0 {
                seq![ChunkView::Delta(text)]
            } else {
                seq![]
            });
        }
        assert(text_of(new) =~= text);
        assert(text_of(before) + text =~= contents(choices));
        assert forall|i: int| 0 <= i < chunks_of_choices(all).len() implies {
            let c = #[trigger] chunks_of_choices(all)[i];
            &&& !(c is Cancelled)
            &&& c matches ChunkView::Delta(t) ==> t.len() > 0
        } by {
            if i < before.len() {
                assert(chunks_of_choices(all)[i] == before[i]);
            } else {
                assert(chunks_of_choices(all)[i] == new[i - before.len()]);
            }
        }
    }
}

/// Every character of a streamed object is kept, white space too: the texts of its pieces, put
/// together, are the contents of its choices, put together. No piece is empty, and none tells of a
/// cancellation.
pub proof fn law_text_of_an_object_is_kept(chunk: &StreamChunk, r: Vec<LlmChunk>)
    requires
        call_ensures(chunks_of, (chunk,), r),
    ensures
        text_of(views::of(r@)) == contents(chunk.choices@),
        forall|i: int|
            0 <= i < r@.len() ==> !((#[trigger] r@[i]) is Cancelled) && (r@[i]
                matches LlmChunk::Delta(t) ==> t@.len() > 0),
{
    lemma_text_of_choices(chunk.choices@);
    let all = views::of(r@);
    assert forall|i: int| 0 <= i < r@.len() implies !((#[trigger] r@[i]) is Cancelled) && (r@[i]
        matches LlmChunk::Delta(t) ==> t@.len() > 0) by {
        assert(all[i] == r@[i]@);
        let c = chunks_of_choices(views::of(chunk.choices@))[i];
        assert(c == all[i]);
    }
}

/// A choice adds its text and then the end of the answer, each where it has one, behind what the
/// choices before it stand for.
pub proof fn law_choices_come_in_order(
    first: &StreamChunk,
    both: &StreamChunk,
    choice: StreamChoice,
    r: Vec<LlmChunk>,
    s: Vec<LlmChunk>,
)
    requires
        call_ensures(chunks_of, (first,), r),
        call_ensures(chunks_of, (both,), s),
        both.choices@ == first.choices@.push(choice),
    ensures
        ({
            let text = match choice.delta.content {
                Some(content) => content@,
                None => seq![],
            };
            let piece = if text.len() > 0 {
                seq![ChunkView::Delta(text)]
            } else {
                seq![]
            };
            let end = if choice.finish_reason is Some {
                seq![ChunkView::Done]
            } else {
                seq![]
            };
            views::of(s@) == views::of(r@) + piece + end
        }),
{
    let all = views::of(both.choices@);
    assert(all.drop_last() =~= views::of(first.choices@));
    assert(all.last() == choice@);
    let text = match choice.delta.content {
        Some(content) => content@,
        None => seq![],
    };
    let piece = if text.len() > 0 {
        seq![ChunkView::Delta(text)]
    } else {
        seq![]
    };
    let end = if choice.finish_reason is Some {
        seq![ChunkView::Done]
    } else {
        seq![]
    };
    assert(choice@.chunks() =~= piece + end);
    assert(views::of(s@) =~= views::of(r@) + piece + end);
}

/// Whether two line feeds stand in a row in `s`.
pub open spec fn has_empty_line(s: Seq<char>) -> bool {
    exists|i: int| 0 <= i && i + 1 < s.len() && #[trigger] s[i] == '\n' && s[i + 1] == '\n'
}

/// The event that stands before the first empty line comes first.
pub proof fn lemma_first_event(event: Seq<char>, rest: Seq<char>)
    requires
        !has_empty_line(event.push('\n')),
    ensures
        ({
            let s = event + seq!['\n', '\n'] + rest;
            &&& events(s).len() > 0
            &&& events(s)[0] == event
            &&& behind_event(s) == rest
        }),
{
    let s = event + seq!['\n', '\n'] + rest;
    let e = event.len() as int;
    assert forall|j: int| 0 <= j < e implies !(#[trigger] s[j] == '\n' && s[j + 1] == '\n') by {
        let t = event.push('\n');
        assert(t[j] == s[j]);
        assert(t[j + 1] == s[j + 1]);
    }
    lemma_is_event_end(s, e);
    assert(s.take(e) =~= event);
    assert(behind_event(s) =~= rest);
}

/// Without an empty line there is no event.
pub proof fn lemma_no_event(s: Seq<char>)
    requires
        !has_empty_line(s),
    ensures
        events(s).len() == 0,
{
    assert forall|j: int| 0 <= j && j + 1 < s.len() implies !(#[trigger] s[j] == '\n' && s[j + 1]
        == '\n') by {}
    lemma_no_event_end(s);
}

/// The next event is what stands before the first empty line: it is read, and what stands behind
/// is left. Without an empty line nothing is read and nothing changes.
pub proof fn law_next_event_is_read(
    sse: &mut SseStream,
    event: Seq<char>,
    rest: Seq<char>,
    r: SsePoll,
)
    requires
        call_ensures(SseStream::poll, (sse, false), r),
        !has_empty_line(event.push('\n')),
    ensures
        old(sse)@ == event + seq!['\n', '\n'] + rest ==> (r matches SsePoll::Event(data) && views::of(
            data@,
        ) == event_data(event) && final(sse)@ == rest),
        !has_empty_line(old(sse)@) ==> r is Pending && final(sse)@ == old(sse)@,
{
    let s = old(sse)@;
    lemma_first_event(event, rest);
    if !has_empty_line(s) {
        lemma_no_event(s);
    }
}

/// A cancelled request reads no event, and leaves the stream as it was.
pub proof fn law_cancelled_stream_reads_nothing(
    sse: &mut SseStream,
    received: Option<&[u8]>,
    r: SsePoll,
    other: &mut SseStream,
    s: ReadStep,
)
    requires
        call_ensures(SseStream::poll, (sse, true), r),
        call_ensures(SseStream::on_read, (other, true, received), s),
    ensures
        !(r is Event),
        has_empty_line(old(sse)@) ==> r is Cancelled,
        final(sse)@ == old(sse)@,
        s == ReadStep::Cancelled,
        final(other)@ == old(other)@,
{
    let b = old(sse)@;
    if has_empty_line(b) {
        let i = choose|i: int| 0 <= i && i + 1 < b.len() && #[trigger] b[i] == '\n' && b[i + 1]
            == '\n';
        lemma_event_end(b);
        if event_end(b) >= b.len() {
            assert(!(b[i] == '\n' && b[i + 1] == '\n'));
        }
    }
}

/// Valid UTF-8 is taken in as the text that it encodes, behind what is there.
pub proof fn law_received_text_is_kept(sse: &mut SseStream, bytes: &[u8], text: Seq<char>, r: ReadStep)
    requires
        call_ensures(SseStream::on_read, (sse, false, Some(bytes)), r),
        bytes@ == vstd::utf8::encode_utf8(text),
    ensures
        r == ReadStep::Buffered,
        final(sse)@ == old(sse)@ + text,
{
    vstd::utf8::encode_utf8_valid_utf8(text);
    vstd::utf8::encode_utf8_decode_utf8(text);
}

/// A line that begins with `data: ` carries what stands behind it, as it is; only the marker of the
/// end, whatever white space is around it, is the end. Any other line carries nothing.
pub proof fn law_data_lines(event: &str, data: Seq<char>, r: Vec<SseData>)
    requires
        call_ensures(read_event, (event,), r),
        forall|i: int| 0 <= i < event@.len() ==> #[trigger] event@[i] != '\n',
    ensures
        event@ == "data: "@ + data && !text::is_core("[DONE]"@, data) ==> r@.len() == 1 && (r@[0]
            matches SseData::Payload(p) && p@ == data),
        event@ == "data: "@ + data && text::is_core("[DONE]"@, data) ==> r@.len() == 1 && r@[0]
            is Done,
        !"data: "@.is_prefix_of(event@) ==> r@.len() == 0,
{
    let line = event@;
    text::law_lines(line, seq![]);
    reveal_with_fuel(lines_data, 2);
    reveal_strlit("data: ");
    reveal_strlit("[DONE]");
    if line.len() > 0 {
        assert(text::lines(line) == seq![line]);
        assert(seq![line].drop_last() =~= seq![]);
    }
    if line == "data: "@ + data {
        assert(line.len() > 0);
        assert(line.subrange(0, "data: "@.len() as int) =~= "data: "@);
        assert("data: "@.is_prefix_of(line));
        assert(line.skip("data: "@.len() as int) =~= data);
        text::law_trimming(data);
        if text::is_core("[DONE]"@, data) {
            text::law_core_is_unique("[DONE]"@, text::trimmed(data), data);
        }
        assert(views::of(r@).len() == 1);
        assert(views::of(r@)[0] == r@[0]@);
    }
    if r@.len() > 0 {
        assert(views::of(r@)[0] == r@[0]@);
    }
}

/// What an event carries is what its lines carry, one after the other.
pub proof fn law_event_is_read_line_by_line(line: Seq<char>, rest: Seq<char>)
    requires
        forall|i: int| 0 <= i < line.len() ==> #[trigger] line[i] != '\n',
        line.len() > 0,
        line.last() != '\r',
    ensures
        event_data(line + seq!['\n'] + rest) == event_data(line) + event_data(rest),
{
    text::law_lines(line, rest);
    lemma_lines_data_add(seq![line], text::lines(rest));
}

proof fn lemma_lines_data_add(a: Seq<Seq<char>>, b: Seq<Seq<char>>)
    ensures
        lines_data(a + b) == lines_data(a) + lines_data(b),
    decreases b.len(),
{
    if b.len() == 0 {
        assert(a + b =~= a);
        assert(lines_data(a) + lines_data(b) =~= lines_data(a));
    } else {
        assert((a + b).drop_last() =~= a + b.drop_last());
        assert((a + b).last() == b.last());
        lemma_lines_data_add(a, b.drop_last());
        assert(lines_data(a + b) =~= lines_data(a) + lines_data(b));
    }
}

/// Every piece is handed on, in order, whatever was collected before.
pub proof fn lemma_yielded_all(c: CollectorView, chunks: Seq<ChunkView>)
    ensures
        yielded(c.steps_all(chunks)) == chunks,
        yielded_text(c.steps_all(chunks)) == text_of(chunks),
        c.after_all(chunks).full == c.full + text_of(chunks),
    decreases chunks.len(),
{
    if chunks.len() == 0 {
        assert(yielded(c.steps_all(chunks)) =~= chunks);
        assert(c.full + text_of(chunks) =~= c.full);
    } else {
        let init = chunks.drop_last();
        let last = chunks.last();
        lemma_yielded_all(c, init);
        let c0 = c.after_all(init);
        let s0 = c.steps_all(init);
        let s = c.steps_all(chunks);
        assert(chunks =~= init.push(last));
        if c0.steps(last).len() == 1 {
            assert(s =~= s0.push(c0.steps(last)[0]));
            lemma_yielded_push(s0, c0.steps(last)[0]);
        } else {
            let s1 = s0.push(c0.steps(last)[0]);
            assert(s =~= s1.push(c0.steps(last)[1]));
            lemma_yielded_push(s0, c0.steps(last)[0]);
            lemma_yielded_push(s1, c0.steps(last)[1]);
        }
        assert(c.after_all(chunks).full =~= c.full + text_of(chunks));
    }
}

/// A collector hands every piece on, in order, and gathers their texts.
pub proof fn law_pieces_are_handed_on(
    c: &mut ResponseCollector,
    chunks: Vec<LlmChunk>,
    r: Vec<CollectStep>,
)
    requires
        call_ensures(ResponseCollector::collect, (c, chunks), r),
    ensures
        yielded(views::of(r@)) == views::of(chunks@),
        yielded_text(views::of(r@)) == text_of(views::of(chunks@)),
        final(c)@.full == old(c)@.full + text_of(views::of(chunks@)),
{
    lemma_yielded_all(old(c)@, views::of(chunks@));
}

} // verus!
