//! Companded samples: G.711 µ-law.

use vstd::prelude::*;

verus! {

/// The code of silence.
pub const SILENCE: u8 = 0xFF;

/// The width of the steps in segment `e`, in units of the first segment's.
pub open spec fn scale(e: int) -> int {
    if e == 0 {
        1
    } else if e == 1 {
        2
    } else if e == 2 {
        4
    } else if e == 3 {
        8
    } else if e == 4 {
        16
    } else if e == 5 {
        32
    } else if e == 6 {
        64
    } else {
        128
    }
}

/// The sample that a code stands for. The complement of the code holds the sign, three bits of
/// segment and four bits of step; a step stands for its middle.
pub open spec fn expanded(code: u8) -> int {
    let m = 255 - code;
    let segment = m % 128 / 16;
    let magnitude = ((2 * (m % 16) + 33) * scale(segment) - 33) * 4;
    if m >= 128 {
        -magnitude
    } else {
        magnitude
    }
}

/// The segment and step that hold a biased magnitude `v`.
pub open spec fn segment_and_step(v: int) -> int {
    if v < 64 {
        v / 2 - 16
    } else if v < 128 {
        v / 4
    } else if v < 256 {
        16 + v / 8
    } else if v < 512 {
        32 + v / 16
    } else if v < 1024 {
        48 + v / 32
    } else if v < 2048 {
        64 + v / 64
    } else if v < 4096 {
        80 + v / 128
    } else if v < 8192 {
        96 + v / 256
    } else {
        127
    }
}

/// The code of a sample: its upper fourteen bits, rounded down, decide the step.
pub open spec fn compressed(sample: i16) -> int {
    if sample >= 0 {
        255 - segment_and_step(sample as int / 4 + 33)
    } else {
        127 - segment_and_step(-1 - sample as int / 4 + 33)
    }
}

/// `audio_codec_algorithms::decode_ulaw`: a table of the 256 samples that the codes stand for.
pub assume_specification[ audio_codec_algorithms::decode_ulaw ](encoded: u8) -> (r: i16)
    ensures
        r == expanded(encoded),
;

/// `audio_codec_algorithms::encode_ulaw`: the sign of the sample, and the segment and step that
/// its magnitude lies in, complemented.
pub assume_specification[ audio_codec_algorithms::encode_ulaw ](linear: i16) -> (r: u8)
    ensures
        r == compressed(linear),
;

/// A code stands for a 16-bit sample, and no sample is expanded beyond 32124.
pub proof fn lemma_expanded_range(code: u8)
    ensures
        -32124 <= expanded(code) <= 32124,
{
    let m = 255 - code;
    let e = m % 128 / 16;
    assert(0 <= e < 8);
}

/// Compressing what a code stands for gives the code back, but for the second code of zero, in
/// whose place the first comes.
pub proof fn law_codes_survive(code: u8)
    ensures
        code != 127 ==> compressed(expanded(code) as i16) == code,
        code == 127 ==> compressed(expanded(code) as i16) == SILENCE,
        expanded(compressed(expanded(code) as i16) as u8) == expanded(code),
{
    lemma_expanded_range(code);
    let m = 255 - code;
    let e = m % 128 / 16;
    let q = m % 16;
    assert(m % 128 == e * 16 + q);
    assert(0 <= e < 8);
}

/// Silence is expanded to zero, and zero compressed to silence.
pub proof fn law_silence()
    ensures
        expanded(SILENCE) == 0,
        compressed(0) == SILENCE,
{
}

/// The samples that codes stand for.
pub fn expand(codes: &[u8]) -> (r: Vec<i16>)
    ensures
        r@.len() == codes@.len(),
        forall|i: int| 0 <= i < codes@.len() ==> #[trigger] r@[i] == expanded(codes@[i]),
{
    let mut r: Vec<i16> = Vec::new();
    let n: usize = codes.len();
    let mut i: usize = 0;
    while i < n
        invariant
            i <= n,
            n == codes@.len(),
            r@.len() == i,
            forall|k: int| 0 <= k < i ==> #[trigger] r@[k] == expanded(codes@[k]),
        decreases n - i,
    {
        r.push(audio_codec_algorithms::decode_ulaw(codes[i]));
        i = i + 1;
    }
    r
}

/// The codes of samples.
pub fn compress(samples: &[i16]) -> (r: Vec<u8>)
    ensures
        r@.len() == samples@.len(),
        forall|i: int| 0 <= i < samples@.len() ==> #[trigger] r@[i] == compressed(samples@[i]),
{
    let mut r: Vec<u8> = Vec::new();
    let n: usize = samples.len();
    let mut i: usize = 0;
    while i < n
        invariant
            i <= n,
            n == samples@.len(),
            r@.len() == i,
            forall|k: int| 0 <= k < i ==> #[trigger] r@[k] == compressed(samples@[k]),
        decreases n - i,
    {
        r.push(audio_codec_algorithms::encode_ulaw(samples[i]));
        i = i + 1;
    }
    r
}

/// A code stands for the middle of the samples that it is the code of: expanding the code of a
/// sample gives a sample of the same sign, at most one part in sixteen and a few steps away.
pub proof fn law_compression_is_close(sample: i16)
    ensures
        0 <= compressed(sample) <= 255,
        ({
            let back = expanded(compressed(sample) as u8);
            let away = if back >= sample {
                back - sample
            } else {
                sample - back
            };
            let size = if sample >= 0 {
                sample as int
            } else {
                -sample as int
            };
            &&& 16 * away <= size + 256
            &&& sample >= 0 ==> back >= 0
            &&& sample < 0 ==> back <= 0
        }),
{
    let v = if sample >= 0 {
        sample as int / 4 + 33
    } else {
        -1 - sample as int / 4 + 33
    };
    let m = segment_and_step(v);
    assert(33 <= v <= 8224);
    assert(0 <= m < 128);
    let e = m / 16;
    assert(0 <= e < 8);
    let code = compressed(sample) as u8;
    assert(255 - code == if sample >= 0 {
        m
    } else {
        m + 128
    });
    assert((255 - code) % 128 == m);
    assert((255 - code) % 16 == m % 16);
}

/// Samples become as many codes, and codes as many samples.
pub proof fn law_one_code_for_each_sample(
    samples: &[i16],
    codes: Vec<u8>,
    bytes: &[u8],
    back: Vec<i16>,
    i: int,
)
    requires
        call_ensures(compress, (samples,), codes),
        call_ensures(expand, (bytes,), back),
        bytes@ == codes@,
        0 <= i < samples@.len(),
    ensures
        codes@.len() == samples@.len(),
        back@.len() == samples@.len(),
        ({
            let away = if back@[i] >= samples@[i] {
                back@[i] - samples@[i]
            } else {
                samples@[i] - back@[i]
            };
            let size = if samples@[i] >= 0 {
                samples@[i] as int
            } else {
                -samples@[i] as int
            };
            16 * away <= size + 256
        }),
{
    law_compression_is_close(samples@[i]);
    assert(back@[i] == expanded(codes@[i]));
}

} // verus!
