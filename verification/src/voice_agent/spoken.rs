//! What a conversation sounds like.

use vstd::prelude::*;

use crate::llm::stream::ChunkView;
use crate::text;
use crate::voice_agent::event::EventView;
use crate::voice_agent::main_loop;
use crate::voice_agent::sentences;
use crate::voice_agent::turn;
use crate::voice_agent::turn::TurnView;

verus! {

/// The events of a finished answer.
pub open spec fn answer_events(parts: Seq<Seq<char>>) -> Seq<EventView> {
    TurnView::fresh().events_all(turn::deltas(parts).push(ChunkView::Done))
}

proof fn lemma_chunks_to_be_spoken(pieces: Seq<Seq<char>>, last: Seq<char>)
    requires
        forall|i: int| 0 <= i < pieces.len() ==> (#[trigger] pieces[i]).len() > 0,
    ensures
        sentences::joined(
            main_loop::all_to_be_spoken(
                turn::chunk_events(pieces).push(EventView::LlmResponseDone(last)),
            ),
        ) == sentences::joined(pieces) + last,
    decreases pieces.len(),
{
    let events = turn::chunk_events(pieces).push(EventView::LlmResponseDone(last));
    if pieces.len() == 0 {
        assert(events =~= seq![EventView::LlmResponseDone(last)]);
        assert(events.drop_first() =~= seq![]);
        reveal_with_fuel(main_loop::all_to_be_spoken, 2);
        let said = main_loop::all_to_be_spoken(events);
        assert(said =~= main_loop::to_be_spoken(EventView::LlmResponseDone(last)));
        if last.len() > 0 {
            assert(said.drop_last() =~= seq![]);
            reveal_with_fuel(sentences::joined, 2);
            assert(sentences::joined(said) =~= last);
        }
        assert(sentences::joined(pieces) + last =~= last);
        assert(sentences::joined(said) =~= last);
    } else {
        let rest = pieces.drop_first();
        assert forall|i: int| 0 <= i < rest.len() implies (#[trigger] rest[i]).len() > 0 by {
            assert(rest[i] == pieces[i + 1]);
        }
        lemma_chunks_to_be_spoken(rest, last);
        let tail = turn::chunk_events(rest).push(EventView::LlmResponseDone(last));
        assert(events.drop_first() =~= tail);
        assert(events[0] == EventView::LlmResponseChunk(pieces[0]));
        let first = seq![pieces[0]];
        sentences::lemma_joined_add(first, main_loop::all_to_be_spoken(tail));
        sentences::lemma_joined_add(first, rest);
        assert(first + rest =~= pieces);
        assert(sentences::joined(first) + (sentences::joined(rest) + last) =~= (sentences::joined(
            first,
        ) + sentences::joined(rest)) + last);
    }
}

/// Pieces of speech are not empty.
proof fn lemma_speakable_not_empty(raw: Seq<Seq<char>>)
    ensures
        forall|i: int|
            0 <= i < sentences::speakable(raw).len() ==> (#[trigger] sentences::speakable(
                raw,
            )[i]).len() > 0,
    decreases raw.len(),
{
    if raw.len() > 0 {
        let before = sentences::speakable(raw.drop_last());
        lemma_speakable_not_empty(raw.drop_last());
        assert forall|i: int| 0 <= i < sentences::speakable(raw).len() implies (
        #[trigger] sentences::speakable(raw)[i]).len() > 0 by {
            if i < before.len() {
                assert(sentences::speakable(raw)[i] == before[i]);
            }
        }
    }
}

/// The answer of the language model is spoken: whatever parts it comes in, the texts that the main
/// loop has spoken for it, put together, are the answer but for white space.
pub proof fn law_answer_is_spoken(is_new: bool, parts: Seq<Seq<char>>)
    ensures
        text::dense(
            sentences::joined(
                main_loop::spoken(main_loop::plans(is_new, answer_events(parts))),
            ),
        ) == text::dense(sentences::joined(parts)),
{
    let whole = sentences::joined(parts);
    let pieces = sentences::speakable(sentences::pieces(whole));
    let last = text::trimmed(sentences::unfinished(whole));
    turn::law_turn_ends_once(parts, seq![]);
    let chunks = turn::deltas(parts).push(ChunkView::Done);
    assert(chunks + seq![] =~= chunks);
    assert(answer_events(parts) == turn::chunk_events(pieces).push(
        EventView::LlmResponseDone(last),
    ));
    main_loop::law_speech_keeps_its_order(is_new, answer_events(parts));
    lemma_speakable_not_empty(sentences::pieces(whole));
    lemma_chunks_to_be_spoken(pieces, last);
    sentences::law_every_word_is_spoken(whole);
}

} // verus!
