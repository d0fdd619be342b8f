//! Captured audio on its way to speech recognition.

use vstd::prelude::*;

use crate::encoding::to_base64;
use crate::framing::take_frames;
use crate::messages::AudioCaptureMessage;
use crate::pcm::samples_to_bytes;
use crate::{encoding, framing, pcm, views};

verus! {

/// The base64 texts of frames.
pub open spec fn encoded_frames(frames: Seq<Seq<u8>>) -> Seq<Seq<char>> {
    Seq::new(frames.len(), |i: int| encoding::encoded(frames[i]))
}

/// The samples of a message.
pub open spec fn captured(message: AudioCaptureMessage) -> Seq<i16> {
    match message {
        AudioCaptureMessage::Chunk(samples) => samples@,
    }
}

/// The bytes of samples come one sample after the other.
proof fn lemma_bytes_add(a: Seq<i16>, b: Seq<i16>)
    ensures
        pcm::bytes(a + b) == pcm::bytes(a) + pcm::bytes(b),
{
    assert forall|i: int| 0 <= i < 2 * (a + b).len() implies pcm::bytes(a + b)[i] == (pcm::bytes(a)
        + pcm::bytes(b))[i] by {
        if i >= 2 * a.len() {
            let k = i - 2 * a.len();
            assert((a + b)[i / 2] == b[k / 2]);
            assert(k % 2 == i % 2);
        }
    }
    assert(pcm::bytes(a + b) =~= pcm::bytes(a) + pcm::bytes(b));
}

/// How captured audio is cut does not depend on how it was captured: samples `a` and then `b` give
/// the texts that both in one give.
pub proof fn law_arrival_does_not_matter(held: Seq<u8>, a: Seq<i16>, b: Seq<i16>, n: nat)
    ensures
        ({
            let first = held + pcm::bytes(a);
            encoded_frames(framing::frames(held + pcm::bytes(a + b), n)) == encoded_frames(
                framing::frames(first, n),
            ) + encoded_frames(framing::frames(framing::rest(first, n) + pcm::bytes(b), n))
        }),
{
    let first = held + pcm::bytes(a);
    lemma_bytes_add(a, b);
    assert(held + pcm::bytes(a + b) =~= first + pcm::bytes(b));
    framing::law_arrival_does_not_matter(first, pcm::bytes(b), n);
    assert(encoded_frames(framing::frames(held + pcm::bytes(a + b), n)) =~= encoded_frames(
        framing::frames(first, n),
    ) + encoded_frames(framing::frames(framing::rest(first, n) + pcm::bytes(b), n)));
}

/// The bytes that texts stand for, put together.
pub open spec fn decoded_texts(texts: Seq<Seq<char>>) -> Seq<u8>
    decreases texts.len(),
{
    if texts.len() == 0 {
        seq![]
    } else {
        encoding::decoded(texts[0]) + decoded_texts(texts.drop_first())
    }
}

/// Nothing captured is lost: the bytes that the texts stand for, followed by those that are held
/// back, are those that were held back before followed by those of the new samples.
pub proof fn law_nothing_captured_is_lost(held: Seq<u8>, samples: Seq<i16>, n: nat)
    ensures
        ({
            let all = held + pcm::bytes(samples);
            decoded_texts(encoded_frames(framing::frames(all, n))) + framing::rest(all, n) == all
        }),
{
    lemma_decoded_frames(held + pcm::bytes(samples), n);
}

proof fn lemma_decoded_frames(all: Seq<u8>, n: nat)
    ensures
        decoded_texts(encoded_frames(framing::frames(all, n))) + framing::rest(all, n) == all,
    decreases all.len(),
{
    let texts = encoded_frames(framing::frames(all, n));
    if n == 0 || all.len() < n {
        assert(texts =~= seq![]);
        assert(decoded_texts(texts) + framing::rest(all, n) =~= all);
    } else {
        let first = all.take(n as int);
        let tail = all.skip(n as int);
        lemma_decoded_frames(tail, n);
        encoding::law_decoding_undoes_encoding(first);
        assert(texts[0] == encoding::encoded(first));
        assert(texts.drop_first() =~= encoded_frames(framing::frames(tail, n)));
        assert(decoded_texts(texts) + framing::rest(all, n) =~= first + (decoded_texts(
            texts.drop_first(),
        ) + framing::rest(tail, n)));
        assert(first + tail =~= all);
    }
}

/// Captured audio that does not fill a chunk yet.
pub struct CaptureBuffer {
    buffer: Vec<u8>,
    chunk_bytes: usize,
}

impl View for CaptureBuffer {
    type V = Seq<u8>;

    closed spec fn view(&self) -> Seq<u8> {
        self.buffer@
    }
}

impl CaptureBuffer {
    /// The number of bytes in a chunk.
    pub closed spec fn chunk_bytes(&self) -> nat {
        self.chunk_bytes as nat
    }

    /// A chunk is not empty, and its text is not longer than a text can be.
    #[verifier::type_invariant]
    spec fn chunks_can_be_sent(&self) -> bool {
        self.chunk_bytes > 0 && encoding::encoded_len(self.chunk_bytes as nat) <= isize::MAX
    }

    /// A buffer that holds nothing, for chunks of the given number of bytes.
    pub fn new(chunk_bytes: usize) -> (r: Self)
        requires
            chunk_bytes > 0,
            encoding::encoded_len(chunk_bytes as nat) <= isize::MAX,
        ensures
            r@ == Seq::<u8>::empty(),
            r.chunk_bytes() == chunk_bytes,
    {
        CaptureBuffer { buffer: Vec::new(), chunk_bytes }
    }

    /// Takes in captured audio and hands out the chunks that it filled, as base64.
    pub fn on_message(&mut self, message: AudioCaptureMessage) -> (r: Vec<String>)
        ensures
            final(self).chunk_bytes() == old(self).chunk_bytes(),
            views::of(r@) == encoded_frames(
                framing::frames(
                    old(self)@ + pcm::bytes(captured(message)),
                    old(self).chunk_bytes(),
                ),
            ),
            final(self)@ == framing::rest(
                old(self)@ + pcm::bytes(captured(message)),
                old(self).chunk_bytes(),
            ),
    {
        broadcast use views::group_views;

        proof {
            use_type_invariant(&*self);
        }
        let chunk_bytes: usize = self.chunk_bytes;
        let AudioCaptureMessage::Chunk(samples) = message;
        let mut held: Vec<u8> = Vec::new();
        std::mem::swap(&mut held, &mut self.buffer);
        let mut bytes = samples_to_bytes(samples.as_slice());
        held.append(&mut bytes);
        let ghost all = held@;
        let chunks = take_frames(&mut held, chunk_bytes);
        self.buffer = held;
        let ghost cut = framing::frames(all, chunk_bytes as nat);
        proof {
            framing::law_frames_are_full(all, chunk_bytes as nat);
        }
        let n: usize = chunks.len();
        let mut r: Vec<String> = Vec::new();
        let mut i: usize = 0;
        while i < n
            invariant
                i <= n,
                n == chunks@.len(),
                cut.len() == n,
                encoding::encoded_len(chunk_bytes as nat) <= isize::MAX,
                forall|k: int| 0 <= k < n ==> (#[trigger] chunks@[k])@ == cut[k],
                forall|k: int| 0 <= k < n ==> (#[trigger] cut[k]).len() == chunk_bytes,
                views::of(r@) == encoded_frames(cut).take(i as int),
            decreases n - i,
        {
            broadcast use views::group_views;

            assert(chunks@[i as int]@ == cut[i as int]);
            r.push(to_base64(chunks[i].as_slice()));
            assert(encoded_frames(cut).take(i + 1) =~= encoded_frames(cut).take(i as int).push(
                encoding::encoded(cut[i as int]),
            ));
            i = i + 1;
        }
        assert(views::of(r@) =~= encoded_frames(cut));
        r
    }
}

/// All that is captured reaches recognition, in order: the bytes of the chunks that are sent, and
/// those that are held back, are those that were held back before and two for each sample, the
/// lower first. Every chunk is full, and less than one is held back.
pub proof fn law_captured_audio_is_sent(c: &mut CaptureBuffer, samples: Vec<i16>, r: Vec<String>)
    requires
        call_ensures(CaptureBuffer::on_message, (c, AudioCaptureMessage::Chunk(samples)), r),
        old(c).chunk_bytes() > 0,
    ensures
        decoded_texts(views::of(r@)) + final(c)@ == old(c)@ + pcm::bytes(samples@),
        final(c)@.len() < old(c).chunk_bytes(),
        forall|i: int|
            0 <= i < r@.len() ==> encoding::is_base64((#[trigger] r@[i])@) && encoding::decoded(
                r@[i]@,
            ).len() == old(c).chunk_bytes(),
        final(c).chunk_bytes() == old(c).chunk_bytes(),
{
    let n = old(c).chunk_bytes();
    let all = old(c)@ + pcm::bytes(samples@);
    let cut = framing::frames(all, n);
    law_nothing_captured_is_lost(old(c)@, samples@, n);
    framing::law_frames_are_full(all, n);
    assert forall|i: int| 0 <= i < r@.len() implies encoding::is_base64((#[trigger] r@[i])@)
        && encoding::decoded(r@[i]@).len() == n by {
        assert(views::of(r@)[i] == encoding::encoded(cut[i]));
        encoding::law_decoding_undoes_encoding(cut[i]);
    }
}

/// A buffer begins with nothing held back, for chunks of the length that was asked for.
pub proof fn law_capture_begins(chunk_bytes: usize, c: CaptureBuffer)
    requires
        chunk_bytes > 0,
        call_ensures(CaptureBuffer::new, (chunk_bytes,), c),
    ensures
        c@.len() == 0,
        c.chunk_bytes() == chunk_bytes,
{
}

} // verus!
