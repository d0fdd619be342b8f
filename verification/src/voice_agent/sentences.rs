//! Cutting a streamed answer into sentences, each of which can be spoken as soon as it is complete.

use vstd::prelude::*;
use vstd::string::*;

use crate::text::{chars_of, trim_text};
use crate::{text, views};

verus! {

/// Whether a sentence, or a line, ends with `c`, and with it a piece of speech.
pub open spec fn is_break(c: char) -> bool {
    c == '.' || c == '!' || c == '?' || c == '\n'
}

/// Decides whether a sentence, or a line, ends with `c`.
pub fn char_is_break(c: char) -> (r: bool)
    ensures
        r == is_break(c),
{
    c == '.' || c == '!' || c == '?' || c == '\n'
}

/// The position of the first break in `s`, or the length of `s` where there is none.
pub open spec fn first_break(s: Seq<char>) -> nat
    decreases s.len(),
{
    if s.len() == 0 || is_break(s[0]) {
        0
    } else {
        1 + first_break(s.drop_first())
    }
}

/// The finished pieces of `s`: each reaches up to a break and holds it.
pub open spec fn pieces(s: Seq<char>) -> Seq<Seq<char>>
    decreases s.len(),
{
    let i = first_break(s) as int;
    if i >= s.len() {
        seq![]
    } else {
        seq![s.take(i + 1)] + pieces(s.skip(i + 1))
    }
}

/// What follows the last break of `s`.
pub open spec fn unfinished(s: Seq<char>) -> Seq<char>
    decreases s.len(),
{
    let i = first_break(s) as int;
    if i >= s.len() {
        s
    } else {
        unfinished(s.skip(i + 1))
    }
}

/// The pieces without the white space around them, those left out of which nothing remains.
pub open spec fn speakable(raw: Seq<Seq<char>>) -> Seq<Seq<char>>
    decreases raw.len(),
{
    if raw.len() == 0 {
        seq![]
    } else {
        let before = speakable(raw.drop_last());
        let piece = text::trimmed(raw.last());
        if piece.len() == 0 {
            before
        } else {
            before.push(piece)
        }
    }
}

/// The first break is the first: nothing before it is one.
pub proof fn lemma_first_break(s: Seq<char>)
    ensures
        first_break(s) <= s.len(),
        first_break(s) < s.len() ==> is_break(s[first_break(s) as int]),
        forall|j: int| 0 <= j < first_break(s) ==> !is_break(s[j]),
    decreases s.len(),
{
    if s.len() > 0 && !is_break(s[0]) {
        lemma_first_break(s.drop_first());
        assert forall|j: int| 0 <= j < first_break(s) implies !is_break(s[j]) by {
            if j > 0 {
                assert(s[j] == s.drop_first()[j - 1]);
            }
        }
    }
}

/// A position with a break, and none before it, is the first break.
proof fn lemma_is_first_break(s: Seq<char>, i: int)
    requires
        0 <= i <= s.len(),
        i < s.len() ==> is_break(s[i]),
        forall|j: int| 0 <= j < i ==> !is_break(s[j]),
    ensures
        first_break(s) == i,
{
    lemma_first_break(s);
    let p = first_break(s) as int;
    if p < i {
        assert(is_break(s[p]));
    }
}

/// Speaking distributes over the concatenation of pieces.
pub proof fn lemma_speakable_add(a: Seq<Seq<char>>, b: Seq<Seq<char>>)
    ensures
        speakable(a + b) == speakable(a) + speakable(b),
    decreases b.len(),
{
    if b.len() == 0 {
        assert(a + b =~= a);
        assert(speakable(a) + speakable(b) =~= speakable(a));
    } else {
        assert((a + b).drop_last() =~= a + b.drop_last());
        assert((a + b).last() == b.last());
        lemma_speakable_add(a, b.drop_last());
        assert(speakable(a + b) =~= speakable(a) + speakable(b));
    }
}

/// Each finished piece ends in a break and holds no other; nothing unfinished holds one.
pub proof fn law_pieces_end_at_breaks(s: Seq<char>)
    ensures
        forall|k: int|
            0 <= k < pieces(s).len() ==> {
                &&& (#[trigger] pieces(s)[k]).len() > 0
                &&& is_break(pieces(s)[k].last())
                &&& forall|j: int| 0 <= j < pieces(s)[k].len() - 1 ==> !is_break(pieces(s)[k][j])
            },
        forall|j: int| 0 <= j < unfinished(s).len() ==> !is_break(unfinished(s)[j]),
    decreases s.len(),
{
    lemma_first_break(s);
    let i = first_break(s) as int;
    if i < s.len() {
        let rest = s.skip(i + 1);
        law_pieces_end_at_breaks(rest);
        assert(unfinished(s) == unfinished(rest));
        assert forall|k: int| 0 <= k < pieces(s).len() implies {
            &&& (#[trigger] pieces(s)[k]).len() > 0
            &&& is_break(pieces(s)[k].last())
            &&& forall|j: int| 0 <= j < pieces(s)[k].len() - 1 ==> !is_break(pieces(s)[k][j])
        } by {
            if k > 0 {
                assert(pieces(s)[k] == pieces(rest)[k - 1]);
            }
        }
    } else {
        assert(unfinished(s) == s);
    }
}

/// How an answer is cut does not depend on how it arrives: what `a` leaves unfinished, continued
/// by `b`, gives the pieces that `a` and `b` in one give beyond those of `a`.
pub proof fn law_arrival_does_not_matter(a: Seq<char>, b: Seq<char>)
    ensures
        pieces(a + b) == pieces(a) + pieces(unfinished(a) + b),
        unfinished(a + b) == unfinished(unfinished(a) + b),
        speakable(pieces(a + b)) == speakable(pieces(a)) + speakable(pieces(unfinished(a) + b)),
    decreases a.len(),
{
    lemma_first_break(a);
    let i = first_break(a) as int;
    if i >= a.len() {
        assert(pieces(a) + pieces(unfinished(a) + b) =~= pieces(a + b));
    } else {
        let rest = a.skip(i + 1);
        assert forall|j: int| 0 <= j < i implies !is_break((a + b)[j]) by {
            assert((a + b)[j] == a[j]);
        }
        lemma_is_first_break(a + b, i);
        assert((a + b).skip(i + 1) =~= rest + b);
        assert((a + b).take(i + 1) =~= a.take(i + 1));
        law_arrival_does_not_matter(rest, b);
        assert(pieces(a + b) =~= pieces(a) + pieces(unfinished(a) + b));
    }
    lemma_speakable_add(pieces(a), pieces(unfinished(a) + b));
}

/// Pieces of speech, put together.
pub open spec fn joined(parts: Seq<Seq<char>>) -> Seq<char>
    decreases parts.len(),
{
    if parts.len() == 0 {
        seq![]
    } else {
        joined(parts.drop_last()) + parts.last()
    }
}

/// Putting pieces together commutes with concatenation.
pub proof fn lemma_joined_add(a: Seq<Seq<char>>, b: Seq<Seq<char>>)
    ensures
        joined(a + b) == joined(a) + joined(b),
    decreases b.len(),
{
    if b.len() == 0 {
        assert(a + b =~= a);
        assert(joined(a) + joined(b) =~= joined(a));
    } else {
        assert((a + b).drop_last() =~= a + b.drop_last());
        assert((a + b).last() == b.last());
        lemma_joined_add(a, b.drop_last());
        assert(joined(a + b) =~= joined(a) + joined(b));
    }
}

/// Nothing is lost: the pieces and what is unfinished, put together again, are the text.
pub proof fn law_nothing_is_lost(s: Seq<char>)
    ensures
        joined(pieces(s)) + unfinished(s) == s,
    decreases s.len(),
{
    lemma_first_break(s);
    let i = first_break(s) as int;
    if i >= s.len() {
        assert(joined(pieces(s)) + unfinished(s) =~= s);
    } else {
        let first = s.take(i + 1);
        let rest = s.skip(i + 1);
        law_nothing_is_lost(rest);
        lemma_joined_add(seq![first], pieces(rest));
        assert(joined(seq![first]) =~= first) by {
            assert(seq![first].drop_last() =~= seq![]);
            reveal_with_fuel(joined, 2);
        }
        assert(joined(pieces(s)) + unfinished(s) =~= first + (joined(pieces(rest)) + unfinished(
            rest,
        )));
        assert(first + rest =~= s);
    }
}

proof fn lemma_dense_speakable(raw: Seq<Seq<char>>)
    ensures
        text::dense(joined(speakable(raw))) == text::dense(joined(raw)),
    decreases raw.len(),
{
    if raw.len() > 0 {
        let init = raw.drop_last();
        let piece = text::trimmed(raw.last());
        lemma_dense_speakable(init);
        text::lemma_dense_trimmed(raw.last());
        text::lemma_dense_add(joined(init), raw.last());
        if piece.len() == 0 {
            assert(text::dense(raw.last()) =~= seq![]);
            assert(text::dense(joined(raw)) =~= text::dense(joined(init)));
        } else {
            let spoken = speakable(init).push(piece);
            assert(spoken.drop_last() =~= speakable(init));
            text::lemma_dense_add(joined(speakable(init)), piece);
        }
    }
}

/// Nothing of an answer goes unspoken: all that is spoken, put together, differs from the answer
/// in white space alone.
pub proof fn law_every_word_is_spoken(s: Seq<char>)
    ensures
        text::dense(joined(speakable(pieces(s))) + text::trimmed(unfinished(s))) == text::dense(s),
{
    let spoken = joined(speakable(pieces(s)));
    law_nothing_is_lost(s);
    lemma_dense_speakable(pieces(s));
    text::lemma_dense_trimmed(unfinished(s));
    text::lemma_dense_add(spoken, text::trimmed(unfinished(s)));
    text::lemma_dense_add(joined(pieces(s)), unfinished(s));
}

/// The part of a streamed answer that has not been spoken yet.
pub struct SentenceBuffer {
    pending: String,
}

impl View for SentenceBuffer {
    type V = Seq<char>;

    closed spec fn view(&self) -> Seq<char> {
        self.pending@
    }
}

impl SentenceBuffer {
    /// A buffer that holds nothing.
    pub fn new() -> (r: Self)
        ensures
            r@ == Seq::<char>::empty(),
    {
        SentenceBuffer { pending: String::new() }
    }

    /// Takes in the next part of the answer and hands out the sentences that it finished.
    pub fn push(&mut self, delta: &str) -> (r: Vec<String>)
        ensures
            views::of(r@) == speakable(pieces(old(self)@ + delta@)),
            final(self)@ == unfinished(old(self)@ + delta@),
    {
        broadcast use views::group_views;

        self.pending.append(delta);
        let ghost all = self.pending@;
        let chars = chars_of(self.pending.as_str());
        let n: usize = chars.len();
        let mut r: Vec<String> = Vec::new();
        let mut start: usize = 0;
        let mut i: usize = 0;
        assert(all.skip(0) =~= all);
        assert(Seq::<Seq<char>>::empty() + speakable(pieces(all)) =~= speakable(pieces(all)));
        while i < n
            invariant
                start <= i <= n,
                n == chars@.len(),
                chars@ == all,
                self.pending@ == all,
                forall|j: int| start <= j < i ==> !is_break(all[j]),
                views::of(r@) + speakable(pieces(all.skip(start as int))) == speakable(pieces(all)),
                unfinished(all.skip(start as int)) == unfinished(all),
            decreases n - i,
        {
            if char_is_break(chars[i]) {
                let ghost rest = all.skip(start as int);
                let ghost before = r@;
                proof {
                    assert forall|j: int| 0 <= j < i - start implies !is_break(rest[j]) by {
                        assert(rest[j] == all[start + j]);
                    }
                    lemma_is_first_break(rest, i - start);
                    assert(rest.take(i - start + 1) =~= all.subrange(start as int, i + 1));
                    assert(rest.skip(i - start + 1) =~= all.skip(i + 1));
                    lemma_speakable_add(
                        seq![rest.take(i - start + 1)],
                        pieces(rest.skip(i - start + 1)),
                    );
                    reveal_with_fuel(speakable, 2);
                    assert(seq![rest.take(i - start + 1)].drop_last() =~= seq![]);
                }
                let piece = trim_text(self.pending.as_str().substring_char(start, i + 1));
                if !piece.is_empty() {
                    r.push(piece.to_owned());
                }
                start = i + 1;
                assert(views::of(r@) + speakable(pieces(all.skip(start as int))) =~= views::of(
                    before,
                ) + speakable(pieces(rest)));
            }
            i = i + 1;
        }
        let ghost rest = all.skip(start as int);
        proof {
            assert forall|j: int| 0 <= j < rest.len() implies !is_break(rest[j]) by {
                assert(rest[j] == all[start + j]);
            }
            lemma_is_first_break(rest, rest.len() as int);
            assert(views::of(r@) + speakable(pieces(rest)) =~= views::of(r@));
        }
        let tail = self.pending.as_str().substring_char(start, n).to_owned();
        self.pending = tail;
        assert(self.pending@ =~= rest);
        r
    }

    /// What is left to be spoken at the end of the answer.
    pub fn rest(&self) -> (r: String)
        ensures
            r@ == text::trimmed(self@),
    {
        trim_text(self.pending.as_str()).to_owned()
    }
}

/// A sentence ends with a full stop, an exclamation mark, a question mark or the end of its line,
/// and with nothing else: not with white space, nor with any letter or digit.
pub proof fn law_sentence_ends(c: char, r: bool)
    requires
        call_ensures(char_is_break, (c,), r),
    ensures
        r <==> seq!['.', '!', '?', '\n'].contains(c),
        r == is_break(c),
{
    let ends = seq!['.', '!', '?', '\n'];
    if r {
        let i: int = if c == '.' {
            0
        } else if c == '!' {
            1
        } else if c == '?' {
            2
        } else {
            3
        };
        assert(ends[i] == c);
    }
}

/// Whether `s` is at most one sentence: a break stands nowhere but at its end.
pub open spec fn is_one_sentence(s: Seq<char>) -> bool {
    forall|i: int| 0 <= i < s.len() - 1 ==> !is_break(#[trigger] s[i])
}

/// Whether `piece` is what is spoken of a sentence of `whole`: all of it, from the end of the
/// sentence before it, or the beginning, up to its own end, without the white space around it.
pub open spec fn is_sentence_of(piece: Seq<char>, whole: Seq<char>) -> bool {
    exists|before: Seq<char>, sentence: Seq<char>, behind: Seq<char>|
        {
            &&& #[trigger] (before + sentence + behind) == whole
            &&& before.len() == 0 || is_break(before.last())
            &&& sentence.len() > 0
            &&& is_break(sentence.last())
            &&& is_one_sentence(sentence)
            &&& text::is_core(piece, sentence)
        }
}

proof fn lemma_piece_stands(s: Seq<char>, k: int, core: Seq<char>)
    requires
        0 <= k < pieces(s).len(),
        text::is_core(core, pieces(s)[k]),
    ensures
        is_sentence_of(core, s),
    decreases s.len(),
{
    lemma_first_break(s);
    let i = first_break(s) as int;
    if i < s.len() {
        let first = s.take(i + 1);
        let rest = s.skip(i + 1);
        assert(first + rest =~= s);
        if k == 0 {
            assert(Seq::<char>::empty() + first + rest =~= s);
            assert(is_one_sentence(first));
        } else {
            assert(pieces(s)[k] == pieces(rest)[k - 1]);
            lemma_piece_stands(rest, k - 1, core);
            let (before, sentence, behind) = choose|
                before: Seq<char>,
                sentence: Seq<char>,
                behind: Seq<char>,
            |
                {
                    &&& #[trigger] (before + sentence + behind) == rest
                    &&& before.len() == 0 || is_break(before.last())
                    &&& sentence.len() > 0
                    &&& is_break(sentence.last())
                    &&& is_one_sentence(sentence)
                    &&& text::is_core(core, sentence)
                };
            let longer = first + before;
            assert(longer + sentence + behind =~= s);
            assert(is_break(longer.last()));
        }
    }
}

/// Each spoken piece is the core of a piece.
proof fn lemma_speakable_are_cores(raw: Seq<Seq<char>>, i: int) -> (k: int)
    requires
        0 <= i < speakable(raw).len(),
    ensures
        0 <= k < raw.len(),
        text::is_core(speakable(raw)[i], raw[k]),
        speakable(raw)[i].len() > 0,
    decreases raw.len(),
{
    if raw.len() > 0 {
        let before = speakable(raw.drop_last());
        if i < before.len() {
            let k = lemma_speakable_are_cores(raw.drop_last(), i);
            assert(raw.drop_last()[k] == raw[k]);
            k
        } else {
            text::law_trimming(raw.last());
            raw.len() - 1
        }
    } else {
        0
    }
}

/// What is spoken of a text, and what is kept back of it.
pub proof fn lemma_sentences_of(s: Seq<char>)
    ensures
        forall|i: int|
            0 <= i < speakable(pieces(s)).len() ==> {
                &&& (#[trigger] speakable(pieces(s))[i]).len() > 0
                &&& is_sentence_of(speakable(pieces(s))[i], s)
            },
        forall|i: int| 0 <= i < unfinished(s).len() ==> !is_break(#[trigger] unfinished(s)[i]),
        text::dense(joined(speakable(pieces(s))) + unfinished(s)) == text::dense(s),
{
    let said = speakable(pieces(s));
    law_pieces_end_at_breaks(s);
    law_nothing_is_lost(s);
    lemma_dense_speakable(pieces(s));
    text::lemma_dense_add(joined(said), unfinished(s));
    text::lemma_dense_add(joined(pieces(s)), unfinished(s));
    assert forall|i: int| 0 <= i < said.len() implies {
        &&& (#[trigger] said[i]).len() > 0
        &&& is_sentence_of(said[i], s)
    } by {
        let k = lemma_speakable_are_cores(pieces(s), i);
        lemma_piece_stands(s, k, said[i]);
    }
}

/// Speech comes in whole sentences: each piece is all of one, as it is, and is not empty. What is kept back is less than a sentence. And nothing is left out: but for white space,
/// the pieces and what is kept back are what was kept back before and what has come.
pub proof fn law_speech_comes_in_sentences(b: &mut SentenceBuffer, delta: &str, r: Vec<String>)
    requires
        call_ensures(SentenceBuffer::push, (b, delta), r),
    ensures
        forall|i: int|
            0 <= i < r@.len() ==> {
                &&& (#[trigger] r@[i])@.len() > 0
                &&& is_sentence_of(r@[i]@, old(b)@ + delta@)
            },
        forall|i: int| 0 <= i < final(b)@.len() ==> !is_break(#[trigger] final(b)@[i]),
        text::dense(joined(views::of(r@)) + final(b)@) == text::dense(old(b)@ + delta@),
{
    let s = old(b)@ + delta@;
    let said = views::of(r@);
    lemma_sentences_of(s);
    assert forall|i: int| 0 <= i < r@.len() implies {
        &&& (#[trigger] r@[i])@.len() > 0
        &&& is_sentence_of(r@[i]@, s)
    } by {
        assert(said[i] == r@[i]@);
    }
}

/// What is left at the end is spoken as it is, without the white space around it.
pub proof fn law_rest_is_spoken(b: &SentenceBuffer, r: String, fresh: SentenceBuffer)
    requires
        call_ensures(SentenceBuffer::rest, (b,), r),
        call_ensures(SentenceBuffer::new, (), fresh),
    ensures
        text::is_core(r@, b@),
        fresh@.len() == 0,
{
    text::law_trimming(b@);
}

} // verus!
