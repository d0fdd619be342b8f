//! A whole streamed answer, however the bytes of its body arrive.

use vstd::prelude::*;

use crate::llm::answer::{AnswerHappening, AnswerView};
use crate::llm::stream::{ChunkView, CollectorView, DataView};
use crate::llm::{answer, stream};

verus! {

/// The pieces that what a line carries stands for; `parse` says what the text of an object stands
/// for.
pub open spec fn data_chunks(data: DataView, parse: spec_fn(Seq<char>) -> Seq<ChunkView>) -> Seq<
    ChunkView,
> {
    match data {
        DataView::Done => seq![ChunkView::Done],
        DataView::Payload(text) => parse(text),
    }
}

/// The pieces that the lines of an event stand for, in order.
pub open spec fn all_data_chunks(
    data: Seq<DataView>,
    parse: spec_fn(Seq<char>) -> Seq<ChunkView>,
) -> Seq<ChunkView>
    decreases data.len(),
{
    if data.len() == 0 {
        seq![]
    } else {
        all_data_chunks(data.drop_last(), parse) + data_chunks(data.last(), parse)
    }
}

/// The pieces that events stand for, in order.
pub open spec fn events_chunks(
    events: Seq<Seq<char>>,
    parse: spec_fn(Seq<char>) -> Seq<ChunkView>,
) -> Seq<ChunkView>
    decreases events.len(),
{
    if events.len() == 0 {
        seq![]
    } else {
        all_data_chunks(stream::event_data(events[0]), parse) + events_chunks(
            events.drop_first(),
            parse,
        )
    }
}

/// The pieces that the body of an answer stands for.
pub open spec fn body_chunks(body: Seq<char>, parse: spec_fn(Seq<char>) -> Seq<ChunkView>) -> Seq<
    ChunkView,
> {
    events_chunks(stream::events(body), parse)
}

/// What happens when the lines of an event are taken in.
pub open spec fn data_course(data: Seq<DataView>, parse: spec_fn(Seq<char>) -> Seq<ChunkView>) -> Seq<
    AnswerHappening,
> {
    Seq::new(data.len(), |i: int| AnswerHappening::Data(data_chunks(data[i], parse)))
}

/// What happens when the events that `buffer` holds are taken in, one after the other, until none
/// is complete.
pub open spec fn poll_course(
    buffer: Seq<char>,
    parse: spec_fn(Seq<char>) -> Seq<ChunkView>,
) -> Seq<AnswerHappening>
    decreases buffer.len(),
{
    let poll = seq![AnswerHappening::Poll { cancelled: false }];
    if stream::event_end(buffer) >= buffer.len() {
        poll
    } else {
        proof {
            stream::lemma_event_end(buffer);
        }
        poll + data_course(stream::event_data(stream::events(buffer)[0]), parse) + poll_course(
            stream::behind_event(buffer),
            parse,
        )
    }
}

/// The text that parts of a body are taken for.
pub open spec fn received_text(parts: Seq<Seq<u8>>) -> Seq<char>
    decreases parts.len(),
{
    if parts.len() == 0 {
        seq![]
    } else {
        received_text(parts.drop_last()) + stream::received_text(parts.last())
    }
}

/// What happens to an answer that is never cancelled and whose body arrives in parts: each part is
/// read, and what is then complete is taken in.
pub open spec fn course(parts: Seq<Seq<u8>>, parse: spec_fn(Seq<char>) -> Seq<ChunkView>) -> Seq<
    AnswerHappening,
>
    decreases parts.len(),
{
    if parts.len() == 0 {
        seq![]
    } else {
        let left = stream::remainder(received_text(parts.drop_last()));
        course(parts.drop_last(), parse) + seq![
            AnswerHappening::Read { cancelled: false, received: Some(parts.last()) },
        ] + poll_course(left + stream::received_text(parts.last()), parse)
    }
}

/// Parts, put together.
pub open spec fn joined(parts: Seq<Seq<u8>>) -> Seq<u8>
    decreases parts.len(),
{
    if parts.len() == 0 {
        seq![]
    } else {
        joined(parts.drop_last()) + parts.last()
    }
}

proof fn lemma_collector_add(collector: CollectorView, a: Seq<ChunkView>, b: Seq<ChunkView>)
    ensures
        collector.after_all(a + b) == collector.after_all(a).after_all(b),
        collector.steps_all(a + b) == collector.steps_all(a) + collector.after_all(a).steps_all(b),
    decreases b.len(),
{
    if b.len() == 0 {
        assert(a + b =~= a);
        assert(collector.steps_all(a + b) =~= collector.steps_all(a) + collector.after_all(
            a,
        ).steps_all(b));
    } else {
        assert((a + b).drop_last() =~= a + b.drop_last());
        assert((a + b).last() == b.last());
        lemma_collector_add(collector, a, b.drop_last());
        assert(collector.steps_all(a + b) =~= collector.steps_all(a) + collector.after_all(
            a,
        ).steps_all(b));
    }
}

proof fn lemma_events_chunks_add(
    a: Seq<Seq<char>>,
    b: Seq<Seq<char>>,
    parse: spec_fn(Seq<char>) -> Seq<ChunkView>,
)
    ensures
        events_chunks(a + b, parse) == events_chunks(a, parse) + events_chunks(b, parse),
    decreases a.len(),
{
    if a.len() == 0 {
        assert(a + b =~= b);
        assert(events_chunks(a, parse) + events_chunks(b, parse) =~= events_chunks(b, parse));
    } else {
        assert((a + b).drop_first() =~= a.drop_first() + b);
        assert((a + b)[0] == a[0]);
        lemma_events_chunks_add(a.drop_first(), b, parse);
        assert(events_chunks(a + b, parse) =~= events_chunks(a, parse) + events_chunks(b, parse));
    }
}

/// Taking in the lines of an event hands on the pieces that they stand for.
proof fn lemma_data_course(
    a: AnswerView,
    data: Seq<DataView>,
    parse: spec_fn(Seq<char>) -> Seq<ChunkView>,
)
    requires
        !a.ended,
    ensures
        a.after_all(data_course(data, parse)) == (AnswerView {
            collector: a.collector.after_all(all_data_chunks(data, parse)),
            ..a
        }),
        a.steps_all(data_course(data, parse)) == a.collector.steps_all(
            all_data_chunks(data, parse),
        ),
    decreases data.len(),
{
    let course = data_course(data, parse);
    if data.len() == 0 {
        assert(a.steps_all(course) =~= a.collector.steps_all(all_data_chunks(data, parse)));
    } else {
        let init = data.drop_last();
        lemma_data_course(a, init, parse);
        assert(course.drop_last() =~= data_course(init, parse));
        assert(course.last() == AnswerHappening::Data(data_chunks(data.last(), parse)));
        lemma_collector_add(
            a.collector,
            all_data_chunks(init, parse),
            data_chunks(data.last(), parse),
        );
    }
}

/// Taking in the events that are complete hands on the pieces that they stand for, and leaves what
/// is behind them.
proof fn lemma_poll_course(a: AnswerView, parse: spec_fn(Seq<char>) -> Seq<ChunkView>)
    requires
        !a.ended,
    ensures
        a.after_all(poll_course(a.buffer, parse)) == (AnswerView {
            buffer: stream::remainder(a.buffer),
            collector: a.collector.after_all(body_chunks(a.buffer, parse)),
            ended: false,
        }),
        a.steps_all(poll_course(a.buffer, parse)) == a.collector.steps_all(
            body_chunks(a.buffer, parse),
        ),
    decreases a.buffer.len(),
{
    let poll = seq![AnswerHappening::Poll { cancelled: false }];
    let events = stream::events(a.buffer);
    stream::lemma_event_end(a.buffer);
    assert(poll.drop_last() =~= seq![]);
    reveal_with_fuel(AnswerView::after_all, 2);
    reveal_with_fuel(AnswerView::steps_all, 2);
    if stream::event_end(a.buffer) >= a.buffer.len() {
        assert(events.len() == 0);
        assert(a.after_all(poll) == a);
        assert(a.steps_all(poll) =~= seq![]);
        assert(a.collector.steps_all(body_chunks(a.buffer, parse)) =~= seq![]);
    } else {
        let data = stream::event_data(events[0]);
        let rest = stream::behind_event(a.buffer);
        let polled = AnswerView { buffer: rest, ..a };
        assert(a.after_all(poll) == polled);
        assert(a.steps_all(poll) =~= seq![]);
        let taken = polled.after_all(data_course(data, parse));
        lemma_data_course(polled, data, parse);
        lemma_poll_course(taken, parse);
        answer::lemma_happenings_add(a, poll, data_course(data, parse));
        answer::lemma_happenings_add(
            a,
            poll + data_course(data, parse),
            poll_course(rest, parse),
        );
        assert(events.drop_first() =~= stream::events(rest));
        lemma_collector_add(
            a.collector,
            all_data_chunks(data, parse),
            body_chunks(rest, parse),
        );
        assert(a.steps_all(poll_course(a.buffer, parse)) =~= a.collector.steps_all(
            body_chunks(a.buffer, parse),
        ));
    }
}

/// What is handed on of an answer that is never cancelled depends on the text of its whole body
/// alone: the pieces that its events stand for, each once and in order. What is left is what
/// follows the last complete event.
pub proof fn law_whole_body_is_read(
    collector: CollectorView,
    parts: Seq<Seq<u8>>,
    parse: spec_fn(Seq<char>) -> Seq<ChunkView>,
)
    ensures
        AnswerView::fresh(collector).steps_all(course(parts, parse)) == collector.steps_all(
            body_chunks(received_text(parts), parse),
        ),
        AnswerView::fresh(collector).after_all(course(parts, parse)) == (AnswerView {
            buffer: stream::remainder(received_text(parts)),
            collector: collector.after_all(body_chunks(received_text(parts), parse)),
            ended: false,
        }),
    decreases parts.len(),
{
    let a = AnswerView::fresh(collector);
    let text = received_text(parts);
    if parts.len() == 0 {
        assert(stream::remainder(text) =~= a.buffer);
        assert(a.steps_all(course(parts, parse)) =~= collector.steps_all(body_chunks(text, parse)));
    } else {
        let init = parts.drop_last();
        let before = received_text(init);
        let part = stream::received_text(parts.last());
        law_whole_body_is_read(collector, init, parse);
        let h = AnswerHappening::Read { cancelled: false, received: Some(parts.last()) };
        let first = course(init, parse);
        let buffer = stream::remainder(before) + part;
        let b = a.after_all(first);
        let c = AnswerView { buffer, ..b };
        assert(seq![h].drop_last() =~= seq![]);
        reveal_with_fuel(AnswerView::after_all, 2);
        reveal_with_fuel(AnswerView::steps_all, 2);
        assert(b.after_all(seq![h]) == c);
        assert(b.steps_all(seq![h]) =~= seq![]);
        answer::lemma_happenings_add(a, first, seq![h]);
        answer::lemma_happenings_add(a, first + seq![h], poll_course(buffer, parse));
        lemma_poll_course(c, parse);
        stream::law_arrival_does_not_matter(before, part);
        lemma_events_chunks_add(stream::events(before), stream::events(buffer), parse);
        lemma_collector_add(collector, body_chunks(before, parse), body_chunks(buffer, parse));
        assert(a.steps_all(course(parts, parse)) =~= collector.steps_all(body_chunks(text, parse)));
    }
}

/// The text of valid UTF-8, put together from valid UTF-8, is the texts put together.
proof fn lemma_decode_add(a: Seq<u8>, b: Seq<u8>)
    requires
        vstd::utf8::valid_utf8(a),
        vstd::utf8::valid_utf8(b),
    ensures
        vstd::utf8::valid_utf8(a + b),
        vstd::utf8::decode_utf8(a + b) == vstd::utf8::decode_utf8(a) + vstd::utf8::decode_utf8(b),
    decreases a.len(),
{
    vstd::utf8::valid_utf8_concat(a, b);
    if a.len() == 0 {
        assert(a + b =~= b);
        assert(vstd::utf8::decode_utf8(a) + vstd::utf8::decode_utf8(b)
            =~= vstd::utf8::decode_utf8(b));
    } else {
        let rest = vstd::utf8::pop_first_scalar(a);
        assert(vstd::utf8::pop_first_scalar(a + b) =~= rest + b);
        lemma_decode_add(rest, b);
        assert(vstd::utf8::decode_utf8(a + b) =~= vstd::utf8::decode_utf8(a)
            + vstd::utf8::decode_utf8(b));
    }
}

proof fn lemma_received_text(parts: Seq<Seq<u8>>)
    requires
        forall|i: int| 0 <= i < parts.len() ==> vstd::utf8::valid_utf8(#[trigger] parts[i]),
    ensures
        vstd::utf8::valid_utf8(joined(parts)),
        received_text(parts) == vstd::utf8::decode_utf8(joined(parts)),
    decreases parts.len(),
{
    if parts.len() == 0 {
        assert(received_text(parts) =~= vstd::utf8::decode_utf8(joined(parts)));
    } else {
        let init = parts.drop_last();
        assert forall|i: int| 0 <= i < init.len() implies vstd::utf8::valid_utf8(
            #[trigger] init[i],
        ) by {
            assert(init[i] == parts[i]);
        }
        lemma_received_text(init);
        assert(parts.last() == parts[parts.len() - 1]);
        lemma_decode_add(joined(init), parts.last());
    }
}

/// How a body is cut into parts does not matter where no character is cut: what is handed on, and
/// what is left, is the same for any two ways to cut it.
pub proof fn law_cuts_do_not_matter(
    collector: CollectorView,
    a: Seq<Seq<u8>>,
    b: Seq<Seq<u8>>,
    parse: spec_fn(Seq<char>) -> Seq<ChunkView>,
)
    requires
        forall|i: int| 0 <= i < a.len() ==> vstd::utf8::valid_utf8(#[trigger] a[i]),
        forall|i: int| 0 <= i < b.len() ==> vstd::utf8::valid_utf8(#[trigger] b[i]),
        joined(a) == joined(b),
    ensures
        AnswerView::fresh(collector).steps_all(course(a, parse)) == AnswerView::fresh(
            collector,
        ).steps_all(course(b, parse)),
        AnswerView::fresh(collector).after_all(course(a, parse)) == AnswerView::fresh(
            collector,
        ).after_all(course(b, parse)),
{
    lemma_received_text(a);
    lemma_received_text(b);
    law_whole_body_is_read(collector, a, parse);
    law_whole_body_is_read(collector, b, parse);
}

/// Whether all bytes are ASCII characters.
pub open spec fn is_ascii(bytes: Seq<u8>) -> bool {
    forall|i: int| 0 <= i < bytes.len() ==> #[trigger] bytes[i] < 128
}

proof fn lemma_ascii_is_utf8(bytes: Seq<u8>)
    requires
        is_ascii(bytes),
    ensures
        vstd::utf8::valid_utf8(bytes),
    decreases bytes.len(),
{
    if bytes.len() > 0 {
        let first = bytes[0];
        assert((first & 0x7F) < 128) by (bit_vector);
        assert(vstd::utf8::valid_first_scalar(bytes));
        let rest = vstd::utf8::pop_first_scalar(bytes);
        assert forall|i: int| 0 <= i < rest.len() implies #[trigger] rest[i] < 128 by {
            assert(rest[i] == bytes[i + 1]);
        }
        lemma_ascii_is_utf8(rest);
    }
}

proof fn lemma_ascii_parts(parts: Seq<Seq<u8>>)
    requires
        is_ascii(joined(parts)),
    ensures
        forall|i: int| 0 <= i < parts.len() ==> vstd::utf8::valid_utf8(#[trigger] parts[i]),
    decreases parts.len(),
{
    if parts.len() > 0 {
        let init = parts.drop_last();
        let last = parts.last();
        let n = joined(init).len() as int;
        assert forall|i: int| 0 <= i < n implies #[trigger] joined(init)[i] < 128 by {
            assert(joined(parts)[i] == joined(init)[i]);
        }
        assert forall|i: int| 0 <= i < last.len() implies #[trigger] last[i] < 128 by {
            assert(joined(parts)[n + i] == last[i]);
        }
        lemma_ascii_parts(init);
        lemma_ascii_is_utf8(last);
        assert forall|i: int| 0 <= i < parts.len() implies vstd::utf8::valid_utf8(
            #[trigger] parts[i],
        ) by {
            if i < init.len() {
                assert(init[i] == parts[i]);
            }
        }
    }
}

/// A body of ASCII characters may be cut anywhere, inside an event or between the line feeds that
/// end it: what is handed on, and what is left, is the same for any two ways to cut it.
pub proof fn law_ascii_body_may_be_cut_anywhere(
    collector: CollectorView,
    a: Seq<Seq<u8>>,
    b: Seq<Seq<u8>>,
    parse: spec_fn(Seq<char>) -> Seq<ChunkView>,
)
    requires
        is_ascii(joined(a)),
        joined(a) == joined(b),
    ensures
        AnswerView::fresh(collector).steps_all(course(a, parse)) == AnswerView::fresh(
            collector,
        ).steps_all(course(b, parse)),
        AnswerView::fresh(collector).after_all(course(a, parse)) == AnswerView::fresh(
            collector,
        ).after_all(course(b, parse)),
{
    lemma_ascii_parts(a);
    lemma_ascii_parts(b);
    law_cuts_do_not_matter(collector, a, b, parse);
}

} // verus!
