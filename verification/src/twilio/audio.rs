//! Speech as telephone audio: 8 kHz µ-law, in frames.

use vstd::prelude::*;

use crate::arithmetic::half;
use crate::framing::take_frames;
use crate::ulaw::{compress, SILENCE};
use crate::{arithmetic, framing, ulaw};

verus! {

/// The bytes in a frame: 20 ms at 8 kHz, one byte for each sample.
pub const TWILIO_FRAME_BYTES: usize = 160;

/// The codes of samples.
pub open spec fn codes(samples: Seq<i16>) -> Seq<u8> {
    Seq::new(samples.len(), |i: int| ulaw::compressed(samples[i]) as u8)
}

/// A frame that begins with `s` and ends in silence.
pub open spec fn filled_up(s: Seq<u8>) -> Seq<u8> {
    if s.len() >= TWILIO_FRAME_BYTES {
        s
    } else {
        s + Seq::new((TWILIO_FRAME_BYTES - s.len()) as nat, |i: int| SILENCE)
    }
}

/// Twice a sample, as far as it can be held.
pub open spec fn doubled(sample: i16) -> int {
    if 2 * sample > i16::MAX {
        i16::MAX as int
    } else if 2 * sample < i16::MIN {
        i16::MIN as int
    } else {
        2 * sample
    }
}

/// Half a sample, rounded towards zero.
pub open spec fn halved(sample: i16) -> int {
    arithmetic::truncated(sample as int, 2)
}

/// What the codes of 8 kHz samples give: how they are cut into frames does not depend on how they
/// arrive, and nothing of them is lost.
pub proof fn law_speech_is_sent_whole(held: Seq<u8>, a: Seq<i16>, b: Seq<i16>)
    ensures
        ({
            let n = TWILIO_FRAME_BYTES as nat;
            let first = held + codes(a);
            &&& framing::frames(held + codes(a + b), n) == framing::frames(first, n)
                + framing::frames(framing::rest(first, n) + codes(b), n)
            &&& framing::frames(first, n).flatten() + framing::rest(first, n) == first
        }),
{
    let n = TWILIO_FRAME_BYTES as nat;
    let first = held + codes(a);
    assert(codes(a + b) =~= codes(a) + codes(b));
    assert(held + codes(a + b) =~= first + codes(b));
    framing::law_arrival_does_not_matter(first, codes(b), n);
    framing::law_nothing_is_lost(first, n);
}

/// Samples made louder, to make up for a telephone that turns its microphone down.
pub fn boost(samples: &[i16]) -> (r: Vec<i16>)
    ensures
        r@.len() == samples@.len(),
        forall|i: int| 0 <= i < samples@.len() ==> #[trigger] r@[i] == doubled(samples@[i]),
{
    let mut r: Vec<i16> = Vec::new();
    let n: usize = samples.len();
    let mut i: usize = 0;
    while i < n
        invariant
            i <= n,
            n == samples@.len(),
            r@.len() == i,
            forall|k: int| 0 <= k < i ==> #[trigger] r@[k] == doubled(samples@[k]),
        decreases n - i,
    {
        let v: i32 = 2 * samples[i] as i32;
        if v > 32767 {
            r.push(32767);
        } else if v < -32768 {
            r.push(-32768);
        } else {
            r.push(v as i16);
        }
        i = i + 1;
    }
    r
}

/// Samples made quieter, so that the telephone does not turn its microphone down.
pub fn reduce(samples: &[i16]) -> (r: Vec<i16>)
    ensures
        r@.len() == samples@.len(),
        forall|i: int| 0 <= i < samples@.len() ==> #[trigger] r@[i] == halved(samples@[i]),
{
    let mut r: Vec<i16> = Vec::new();
    let n: usize = samples.len();
    let mut i: usize = 0;
    while i < n
        invariant
            i <= n,
            n == samples@.len(),
            r@.len() == i,
            forall|k: int| 0 <= k < i ==> #[trigger] r@[k] == halved(samples@[k]),
        decreases n - i,
    {
        r.push(half(samples[i] as i32) as i16);
        i = i + 1;
    }
    r
}

/// Speech on its way to a telephone, cut into frames.
pub struct TtsDownsampler {
    output_buffer: Vec<u8>,
}

impl View for TtsDownsampler {
    type V = Seq<u8>;

    closed spec fn view(&self) -> Seq<u8> {
        self.output_buffer@
    }
}

impl TtsDownsampler {
    /// What is held back is less than a frame.
    #[verifier::type_invariant]
    spec fn holds_less_than_a_frame(&self) -> bool {
        self.output_buffer@.len() < TWILIO_FRAME_BYTES
    }

    /// A downsampler that holds nothing back.
    pub fn new() -> (r: Self)
        ensures
            r@ == Seq::<u8>::empty(),
    {
        TtsDownsampler { output_buffer: Vec::new() }
    }

    /// Takes in samples that were brought to 8 kHz, and hands out the frames that they fill.
    pub fn process(&mut self, samples_8k: &[i16]) -> (r: Vec<Vec<u8>>)
        ensures
            r@.len() == framing::frames(
                old(self)@ + codes(samples_8k@),
                TWILIO_FRAME_BYTES as nat,
            ).len(),
            forall|k: int|
                0 <= k < r@.len() ==> (#[trigger] r@[k])@ == framing::frames(
                    old(self)@ + codes(samples_8k@),
                    TWILIO_FRAME_BYTES as nat,
                )[k],
            forall|k: int| 0 <= k < r@.len() ==> (#[trigger] r@[k])@.len() == TWILIO_FRAME_BYTES,
            final(self)@ == framing::rest(
                old(self)@ + codes(samples_8k@),
                TWILIO_FRAME_BYTES as nat,
            ),
    {
        let mut held: Vec<u8> = Vec::new();
        std::mem::swap(&mut held, &mut self.output_buffer);
        let mut added = compress(samples_8k);
        assert(added@ =~= codes(samples_8k@));
        held.append(&mut added);
        proof {
            framing::law_frames_are_full(held@, TWILIO_FRAME_BYTES as nat);
        }
        let frames = take_frames(&mut held, TWILIO_FRAME_BYTES);
        self.output_buffer = held;
        frames
    }

    /// Hands out what is held back, as a frame that ends in silence.
    pub fn flush(&mut self) -> (r: Option<Vec<u8>>)
        ensures
            match r {
                Some(frame) => {
                    &&& old(self)@.len() > 0
                    &&& frame@ == filled_up(old(self)@)
                    &&& frame@.len() == TWILIO_FRAME_BYTES
                },
                None => old(self)@.len() == 0,
            },
            final(self)@ == Seq::<u8>::empty(),
    {
        proof {
            use_type_invariant(&*self);
        }
        let mut frame: Vec<u8> = Vec::new();
        std::mem::swap(&mut frame, &mut self.output_buffer);
        if frame.len() == 0 {
            return None;
        }
        let ghost start = frame@;
        while frame.len() < TWILIO_FRAME_BYTES
            invariant
                start.len() <= frame@.len() <= TWILIO_FRAME_BYTES,
                frame@ == start + Seq::new((frame@.len() - start.len()) as nat, |i: int| SILENCE),
            decreases TWILIO_FRAME_BYTES - frame@.len(),
        {
            frame.push(SILENCE);
            assert(frame@ =~= start + Seq::new(
                (frame@.len() - start.len()) as nat,
                |i: int| SILENCE,
            ));
        }
        assert(frame@ =~= filled_up(start));
        Some(frame)
    }
}

/// Making samples louder doubles each of them, as far as it can be held, and making them quieter
/// halves each, towards zero; neither loses a sample.
pub proof fn law_loudness(samples: &[i16], louder: Vec<i16>, quieter: Vec<i16>, i: int)
    requires
        call_ensures(boost, (samples,), louder),
        call_ensures(reduce, (samples,), quieter),
        0 <= i < samples@.len(),
    ensures
        louder@.len() == samples@.len(),
        quieter@.len() == samples@.len(),
        -16384 <= samples@[i] <= 16383 ==> louder@[i] == 2 * samples@[i],
        samples@[i] > 16383 ==> louder@[i] == 32767,
        samples@[i] < -16384 ==> louder@[i] == -32768,
        samples@[i] >= 0 ==> 2 * quieter@[i] == samples@[i] || 2 * quieter@[i] == samples@[i] - 1,
        samples@[i] < 0 ==> 2 * quieter@[i] == samples@[i] || 2 * quieter@[i] == samples@[i] + 1,
{
    assert(louder@[i] == doubled(samples@[i]));
    assert(quieter@[i] == halved(samples@[i]));
}

/// Speech is cut into frames of 160 codes, one for each sample, in order and with nothing lost: the
/// frames and what is held back are what was held back before and the codes of the samples. Less
/// than a frame is held back.
pub proof fn law_speech_fills_frames(t: &mut TtsDownsampler, samples_8k: &[i16], r: Vec<Vec<u8>>)
    requires
        call_ensures(TtsDownsampler::process, (t, samples_8k), r),
    ensures
        forall|k: int| 0 <= k < r@.len() ==> (#[trigger] r@[k])@.len() == 160,
        crate::views::of(r@).flatten() + final(t)@ == old(t)@ + Seq::new(
            samples_8k@.len(),
            |i: int| ulaw::compressed(samples_8k@[i]) as u8,
        ),
        final(t)@.len() < 160,
{
    let all = old(t)@ + codes(samples_8k@);
    framing::law_frames_are_full(all, TWILIO_FRAME_BYTES as nat);
    framing::law_nothing_is_lost(all, TWILIO_FRAME_BYTES as nat);
    assert(crate::views::of(r@) =~= framing::frames(all, TWILIO_FRAME_BYTES as nat));
    assert(codes(samples_8k@) =~= Seq::new(
        samples_8k@.len(),
        |i: int| ulaw::compressed(samples_8k@[i]) as u8,
    ));
}

/// At the end what is held back is sent as a frame of its own, filled up with silence, and then
/// nothing is held back.
pub proof fn law_rest_of_speech_is_sent(t: &mut TtsDownsampler, r: Option<Vec<u8>>)
    requires
        call_ensures(TtsDownsampler::flush, (t,), r),
    ensures
        r is Some <==> old(t)@.len() > 0,
        r matches Some(frame) ==> {
            &&& frame@.len() == 160
            &&& frame@.take(old(t)@.len() as int) == old(t)@
            &&& forall|i: int| old(t)@.len() <= i < 160 ==> ulaw::expanded(#[trigger] frame@[i]) == 0
        },
        final(t)@.len() == 0,
{
    if let Some(frame) = r {
        assert(frame@.take(old(t)@.len() as int) =~= old(t)@);
        ulaw::law_silence();
    }
}

} // verus!
