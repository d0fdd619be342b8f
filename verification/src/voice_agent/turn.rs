//! One turn of the language model: its answer, piece by piece, on the way to speech.

use vstd::prelude::*;
use vstd::string::*;

use crate::llm::stream::{ChunkView, LlmChunk};
use crate::voice_agent::event::{EventView, VoiceAgentEvent};
use crate::voice_agent::sentences;
use crate::voice_agent::sentences::SentenceBuffer;
use crate::{text, views};

verus! {

/// The mathematical counterpart of a [`Turn`].
pub struct TurnView {
    /// The answer so far.
    pub response: Seq<char>,
    /// What of it was not handed on yet.
    pub pending: Seq<char>,
    /// Whether the turn is over.
    pub over: bool,
}

/// The events that hand pieces on.
pub open spec fn chunk_events(pieces: Seq<Seq<char>>) -> Seq<EventView> {
    Seq::new(pieces.len(), |i: int| EventView::LlmResponseChunk(pieces[i]))
}

impl TurnView {
    /// A turn of which nothing has come.
    pub open spec fn fresh() -> TurnView {
        TurnView { response: seq![], pending: seq![], over: false }
    }

    /// The turn after a piece of the answer's stream.
    pub open spec fn after(self, chunk: ChunkView) -> TurnView {
        if self.over {
            self
        } else {
            match chunk {
                ChunkView::Delta(text) => TurnView {
                    response: self.response + text,
                    pending: sentences::unfinished(self.pending + text),
                    over: false,
                },
                _ => TurnView { over: true, ..self },
            }
        }
    }

    /// The events that a piece of the answer's stream leads to: the pieces of speech that it
    /// finished, or what is left at the end. A cancelled answer leads to none.
    pub open spec fn events(self, chunk: ChunkView) -> Seq<EventView> {
        if self.over {
            seq![]
        } else {
            match chunk {
                ChunkView::Delta(text) => chunk_events(
                    sentences::speakable(sentences::pieces(self.pending + text)),
                ),
                ChunkView::Done => seq![EventView::LlmResponseDone(text::trimmed(self.pending))],
                ChunkView::Cancelled => seq![],
            }
        }
    }

    /// The turn after several pieces of the stream.
    pub open spec fn after_all(self, chunks: Seq<ChunkView>) -> TurnView
        decreases chunks.len(),
    {
        if chunks.len() == 0 {
            self
        } else {
            self.after_all(chunks.drop_last()).after(chunks.last())
        }
    }

    /// The events that several pieces of the stream lead to.
    pub open spec fn events_all(self, chunks: Seq<ChunkView>) -> Seq<EventView>
        decreases chunks.len(),
    {
        if chunks.len() == 0 {
            seq![]
        } else {
            self.events_all(chunks.drop_last()) + self.after_all(chunks.drop_last()).events(
                chunks.last(),
            )
        }
    }
}

/// Text that arrives in parts.
pub open spec fn deltas(parts: Seq<Seq<char>>) -> Seq<ChunkView> {
    Seq::new(parts.len(), |i: int| ChunkView::Delta(parts[i]))
}

/// However an answer is cut up on its way, the same is spoken: the pieces of the whole answer, in
/// order. What the turn remembers of the answer is the whole of it.
pub proof fn law_parts_do_not_matter(parts: Seq<Seq<char>>)
    ensures
        TurnView::fresh().after_all(deltas(parts)) == (TurnView {
            response: sentences::joined(parts),
            pending: sentences::unfinished(sentences::joined(parts)),
            over: false,
        }),
        TurnView::fresh().events_all(deltas(parts)) == chunk_events(
            sentences::speakable(sentences::pieces(sentences::joined(parts))),
        ),
    decreases parts.len(),
{
    let t = TurnView::fresh();
    let all = sentences::speakable(sentences::pieces(sentences::joined(parts)));
    if parts.len() == 0 {
        assert(t.events_all(deltas(parts)) =~= chunk_events(all));
        assert(t.after_all(deltas(parts)).pending =~= sentences::unfinished(sentences::joined(parts)));
    } else {
        let init = parts.drop_last();
        let before = sentences::joined(init);
        law_parts_do_not_matter(init);
        sentences::law_arrival_does_not_matter(before, parts.last());
        assert(deltas(parts).drop_last() =~= deltas(init));
        assert(deltas(parts).last() == ChunkView::Delta(parts.last()));
        let old_pieces = sentences::speakable(sentences::pieces(before));
        let new_pieces = sentences::speakable(
            sentences::pieces(sentences::unfinished(before) + parts.last()),
        );
        assert(chunk_events(all) =~= chunk_events(old_pieces) + chunk_events(new_pieces));
    }
}

/// The end of an answer hands on what was left of it; nothing that follows is heeded.
pub proof fn law_turn_ends_once(parts: Seq<Seq<char>>, late: Seq<ChunkView>)
    ensures
        ({
            let whole = deltas(parts).push(ChunkView::Done);
            let spoken = sentences::speakable(sentences::pieces(sentences::joined(parts)));
            let last = text::trimmed(sentences::unfinished(sentences::joined(parts)));
            &&& TurnView::fresh().events_all(whole + late) == chunk_events(spoken).push(
                EventView::LlmResponseDone(last),
            )
            &&& TurnView::fresh().after_all(whole + late).response == sentences::joined(parts)
            &&& TurnView::fresh().after_all(whole + late).over
        }),
    decreases late.len(),
{
    let whole = deltas(parts).push(ChunkView::Done);
    if late.len() == 0 {
        law_parts_do_not_matter(parts);
        assert(whole + late =~= whole);
        assert(whole.drop_last() =~= deltas(parts));
    } else {
        law_turn_ends_once(parts, late.drop_last());
        assert((whole + late).drop_last() =~= whole + late.drop_last());
        assert(TurnView::fresh().events_all(whole + late) =~= TurnView::fresh().events_all(
            whole + late.drop_last(),
        ));
    }
}

/// One turn of the language model.
pub struct Turn {
    full_response: String,
    sentence_buffer: SentenceBuffer,
    over: bool,
}

impl View for Turn {
    type V = TurnView;

    closed spec fn view(&self) -> TurnView {
        TurnView {
            response: self.full_response@,
            pending: self.sentence_buffer@,
            over: self.over,
        }
    }
}

impl Turn {
    /// A turn of which nothing has come.
    pub fn new() -> (r: Self)
        ensures
            r@ == TurnView::fresh(),
    {
        let r = Turn {
            full_response: String::new(),
            sentence_buffer: SentenceBuffer::new(),
            over: false,
        };
        assert(r@.response =~= TurnView::fresh().response);
        assert(r@.pending =~= TurnView::fresh().pending);
        r
    }

    /// Whether the turn is over.
    pub fn is_over(&self) -> (r: bool)
        ensures
            r == self@.over,
    {
        self.over
    }

    /// Takes in a piece of the answer's stream.
    pub fn on_chunk(&mut self, chunk: LlmChunk) -> (r: Vec<VoiceAgentEvent>)
        ensures
            final(self)@ == old(self)@.after(chunk@),
            views::of(r@) == old(self)@.events(chunk@),
    {
        broadcast use views::group_views;

        let mut r: Vec<VoiceAgentEvent> = Vec::new();
        let ghost before = self@;
        let ghost c = chunk@;
        if self.over {
            assert(views::of(r@) =~= before.events(c));
            return r;
        }
        match chunk {
            LlmChunk::Delta(text) => {
                self.full_response.append(text.as_str());
                let pieces = self.sentence_buffer.push(text.as_str());
                let n: usize = pieces.len();
                let mut i: usize = 0;
                while i < n
                    invariant
                        i <= n,
                        n == pieces@.len(),
                        views::of(r@) == chunk_events(views::of(pieces@)).take(i as int),
                    decreases n - i,
                {
                    broadcast use views::group_views;

                    r.push(VoiceAgentEvent::LlmResponseChunk(pieces[i].clone()));
                    assert(chunk_events(views::of(pieces@)).take(i + 1) =~= chunk_events(
                        views::of(pieces@),
                    ).take(i as int).push(EventView::LlmResponseChunk(pieces@[i as int]@)));
                    i = i + 1;
                }
                assert(views::of(r@) =~= chunk_events(views::of(pieces@)));
            },
            LlmChunk::Done => {
                r.push(VoiceAgentEvent::LlmResponseDone(self.sentence_buffer.rest()));
                self.over = true;
            },
            LlmChunk::Cancelled => {
                self.over = true;
            },
        }
        assert(views::of(r@) =~= before.events(c));
        r
    }

    /// The answer so far, as it is added to the conversation once its stream has ended.
    pub fn response(&self) -> (r: &str)
        ensures
            r@ == self@.response,
    {
        self.full_response.as_str()
    }
}

/// The event that reports that the language model could not be asked.
pub fn chat_error(error: &str) -> (r: VoiceAgentEvent)
    ensures
        r@ == EventView::LlmError("LLM chat error: "@ + error@),
{
    let mut message = "LLM chat error: ".to_owned();
    message.append(error);
    VoiceAgentEvent::LlmError(message)
}

/// A piece of an answer is remembered as it is, and its sentences go out as they are completed:
/// each as an event of its own that holds one whole sentence. But for white space, the sentences
/// and what is kept back are what was kept back before and the piece.
pub proof fn law_answer_goes_out_in_sentences(
    t: &mut Turn,
    delta: String,
    r: Vec<VoiceAgentEvent>,
    said: Seq<Seq<char>>,
)
    requires
        call_ensures(Turn::on_chunk, (t, LlmChunk::Delta(delta)), r),
        !old(t)@.over,
        said.len() == r@.len(),
        forall|i: int|
            0 <= i < r@.len() ==> ((#[trigger] r@[i]) matches VoiceAgentEvent::LlmResponseChunk(s)
                ==> said[i] == s@),
    ensures
        forall|i: int| 0 <= i < r@.len() ==> (#[trigger] r@[i]) is LlmResponseChunk,
        forall|i: int|
            0 <= i < said.len() ==> (#[trigger] said[i]).len() > 0 && sentences::is_sentence_of(
                said[i],
                old(t)@.pending + delta@,
            ),
        text::dense(sentences::joined(said) + final(t)@.pending) == text::dense(
            old(t)@.pending + delta@,
        ),
        forall|i: int|
            0 <= i < final(t)@.pending.len() ==> !sentences::is_break(
                #[trigger] final(t)@.pending[i],
            ),
        final(t)@.response == old(t)@.response + delta@,
        !final(t)@.over,
{
    let s = old(t)@.pending + delta@;
    let spoken = sentences::speakable(sentences::pieces(s));
    assert(forall|i: int| 0 <= i < r@.len() ==> views::of(r@)[i] == (#[trigger] r@[i])@);
    assert(views::of(r@) == chunk_events(spoken));
    assert(r@.len() == spoken.len());
    assert forall|i: int| 0 <= i < said.len() implies said[i] == spoken[i] by {
        assert(views::of(r@)[i] == r@[i]@);
        assert(r@[i]@ == EventView::LlmResponseChunk(spoken[i]));
        if let VoiceAgentEvent::LlmResponseChunk(s) = r@[i] {
            assert(said[i] == s@);
        }
    }
    assert(said =~= spoken);
    sentences::lemma_sentences_of(s);
}

/// At the end of an answer what was kept back goes out, and with it that the answer is over. A
/// cancelled answer says nothing more. Either way the turn is over, what has come of the answer is
/// kept, and nothing that comes later counts.
pub proof fn law_turn_is_over_at_the_end(
    t: &mut Turn,
    chunk: LlmChunk,
    r: Vec<VoiceAgentEvent>,
    fresh: Turn,
    w: &Turn,
    response: &str,
)
    requires
        call_ensures(Turn::on_chunk, (t, chunk), r),
        call_ensures(Turn::new, (), fresh),
        call_ensures(Turn::response, (w,), response),
    ensures
        old(t)@.over ==> r@.len() == 0 && final(t)@ == old(t)@,
        !old(t)@.over && chunk is Done ==> r@.len() == 1 && (r@[0]
            matches VoiceAgentEvent::LlmResponseDone(last) && text::is_core(last@, old(t)@.pending)),
        !old(t)@.over && chunk is Cancelled ==> r@.len() == 0,
        !(chunk is Delta) ==> final(t)@.over && final(t)@.response == old(t)@.response,
        fresh@.response.len() == 0 && fresh@.pending.len() == 0 && !fresh@.over,
        response@ == w@.response,
{
    text::law_trimming(old(t)@.pending);
    assert(views::of(r@).len() == r@.len());
    if r@.len() > 0 {
        assert(views::of(r@)[0] == r@[0]@);
    }
}

/// The report that the language model could not be asked holds why.
pub proof fn law_chat_error_is_reported(error: &str, r: VoiceAgentEvent)
    requires
        call_ensures(chat_error, (error,), r),
    ensures
        r matches VoiceAgentEvent::LlmError(report) && exists|what: Seq<char>|
            report@ == #[trigger] (what + error@),
{
    assert(r@ == EventView::LlmError("LLM chat error: "@ + error@));
}

} // verus!
