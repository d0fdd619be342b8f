//! Captured audio, brought to 24 kHz.

use vstd::prelude::*;

use crate::arithmetic;
use crate::arithmetic::third;

verus! {

/// Audio that was captured.
#[derive(Debug)]
pub enum PcmCaptureMessage {
    /// The next samples, at 24 kHz.
    Chunk(Vec<i16>),
}

/// The mathematical counterpart of a [`PcmCaptureMessage`].
pub enum CaptureMessageView {
    Chunk(Seq<i16>),
}

impl View for PcmCaptureMessage {
    type V = CaptureMessageView;

    open spec fn view(&self) -> CaptureMessageView {
        match *self {
            PcmCaptureMessage::Chunk(samples) => CaptureMessageView::Chunk(samples@),
        }
    }
}

/// Whether a rate can be brought to 24 kHz.
pub open spec fn is_preferred(rate: u32) -> bool {
    rate == 16000 || rate == 24000 || rate == 48000
}

/// Whether a device with the given ranges of rates, both ends included, supports a rate.
pub open spec fn supports(ranges: Seq<(u32, u32)>, rate: u32) -> bool {
    exists|i: int| 0 <= i < ranges.len() && #[trigger] ranges[i].0 <= rate <= ranges[i].1
}

/// The rate to capture at: the device's own where it can be brought to 24 kHz, else the highest
/// supported one that can, else the device's own after all.
pub open spec fn chosen_rate(device_rate: u32, ranges: Seq<(u32, u32)>) -> u32 {
    if is_preferred(device_rate) {
        device_rate
    } else if supports(ranges, 48000) {
        48000
    } else if supports(ranges, 24000) {
        24000
    } else if supports(ranges, 16000) {
        16000
    } else {
        device_rate
    }
}

/// Whether a device with the given ranges of rates supports a rate.
pub fn supports_sample_rate(ranges: &[(u32, u32)], rate: u32) -> (r: bool)
    ensures
        r == supports(ranges@, rate),
{
    let n: usize = ranges.len();
    let mut i: usize = 0;
    while i < n
        invariant
            i <= n,
            n == ranges@.len(),
            forall|k: int| 0 <= k < i ==> !(#[trigger] ranges@[k].0 <= rate <= ranges@[k].1),
        decreases n - i,
    {
        let (low, high) = ranges[i];
        if low <= rate && rate <= high {
            assert(ranges@[i as int].0 <= rate <= ranges@[i as int].1);
            return true;
        }
        i = i + 1;
    }
    false
}

/// Chooses the rate to capture at.
pub fn choose_sample_rate(device_rate: u32, ranges: &[(u32, u32)]) -> (r: u32)
    ensures
        r == chosen_rate(device_rate, ranges@),
{
    if device_rate == 16000 || device_rate == 24000 || device_rate == 48000 {
        device_rate
    } else if supports_sample_rate(ranges, 48000) {
        48000
    } else if supports_sample_rate(ranges, 24000) {
        24000
    } else if supports_sample_rate(ranges, 16000) {
        16000
    } else {
        device_rate
    }
}

/// Every second sample.
pub open spec fn every_second(samples: Seq<i16>) -> Seq<i16> {
    Seq::new((samples.len() + 1) / 2, |i: int| samples[2 * i])
}

/// Brings samples from 48 kHz to 24 kHz by taking every second one.
pub fn resample_48_to_24(samples: &[i16]) -> (r: Vec<i16>)
    ensures
        r@ == every_second(samples@),
{
    let mut r: Vec<i16> = Vec::new();
    let n: usize = samples.len();
    let mut i: usize = 0;
    while i < n
        invariant
            n == samples@.len(),
            i <= n,
            i % 2 == 0,
            r@.len() == i / 2,
            forall|k: int| 0 <= k < r@.len() ==> r@[k] == every_second(samples@)[k],
        decreases n - i,
    {
        r.push(samples[i]);
        if n - i < 2 {
            assert(r@ =~= every_second(samples@));
            return r;
        }
        i = i + 2;
    }
    assert(r@ =~= every_second(samples@));
    r
}

/// Three times the value at `k` thirds of a sample, on the lines from each sample to the next;
/// beyond the last sample the line is level.
pub open spec fn line(samples: Seq<i16>, k: int) -> int {
    let j = k / 3;
    if j >= samples.len() - 1 {
        3 * samples.last()
    } else {
        samples[j] * (3 - k % 3) + samples[j + 1] * (k % 3)
    }
}

/// Samples at one and a half times their rate: each lies on the line between its neighbours,
/// rounded towards zero. Fewer than two samples stay as they are.
pub open spec fn interpolated(samples: Seq<i16>) -> Seq<i16> {
    if samples.len() < 2 {
        samples
    } else {
        Seq::new(
            samples.len() * 3 / 2,
            |i: int| arithmetic::truncated(line(samples, 2 * i), 3) as i16,
        )
    }
}

proof fn lemma_line_bounds(samples: Seq<i16>, k: int, low: int, high: int)
    requires
        0 <= k,
        samples.len() > 0,
        forall|i: int| 0 <= i < samples.len() ==> low <= #[trigger] samples[i] <= high,
    ensures
        3 * low <= line(samples, k) <= 3 * high,
{
    let j = k / 3;
    if j < samples.len() - 1 {
        let a = samples[j] as int;
        let b = samples[j + 1] as int;
        let f = k % 3;
        assert(f == 0 || f == 1 || f == 2);
        assert(a * (3 - f) + b * f == if f == 0 {
            3 * a
        } else if f == 1 {
            2 * a + b
        } else {
            a + 2 * b
        }) by (nonlinear_arith)
            requires
                f == 0 || f == 1 || f == 2,
        ;
    }
}

/// Interpolation stays within the range of the samples; so a level signal stays level.
pub proof fn law_interpolation_stays_in_range(samples: Seq<i16>, low: int, high: int, i: int)
    requires
        forall|k: int| 0 <= k < samples.len() ==> low <= #[trigger] samples[k] <= high,
        0 <= i < interpolated(samples).len(),
    ensures
        low <= interpolated(samples)[i] <= high,
{
    if samples.len() >= 2 {
        assert(samples.len() > 0);
        lemma_line_bounds(samples, 2 * i, low, high);
        lemma_line_bounds(samples, 2 * i, i16::MIN as int, i16::MAX as int);
    }
}

proof fn lemma_line_step(samples: Seq<i16>, k: int)
    requires
        0 <= k,
        samples.len() > 0,
        forall|i: int, j: int| 0 <= i <= j < samples.len() ==> samples[i] <= samples[j],
    ensures
        line(samples, k) <= line(samples, k + 1),
{
    let j = k / 3;
    let f = k % 3;
    if j < samples.len() - 1 {
        let a = samples[j] as int;
        let b = samples[j + 1] as int;
        assert(a <= b);
        assert(line(samples, k) == a * (3 - f) + b * f);
        if f == 2 {
            assert((k + 1) / 3 == j + 1 && (k + 1) % 3 == 0);
            assert(a * (3 - f) + b * f == a + 2 * b) by (nonlinear_arith)
                requires
                    f == 2,
            ;
            if j + 1 < samples.len() - 1 {
                let c = samples[j + 2] as int;
                assert(b * (3 - 0) + c * 0 == 3 * b) by (nonlinear_arith);
                assert(line(samples, k + 1) == 3 * b);
            } else {
                assert(line(samples, k + 1) == 3 * b);
            }
        } else {
            assert((k + 1) / 3 == j && (k + 1) % 3 == f + 1);
            assert(line(samples, k + 1) == a * (3 - (f + 1)) + b * (f + 1));
            assert(a * (3 - f) + b * f <= a * (3 - (f + 1)) + b * (f + 1)) by (nonlinear_arith)
                requires
                    a <= b,
            ;
        }
    }
}

/// Interpolation keeps a rising signal rising.
pub proof fn law_interpolation_keeps_rising(samples: Seq<i16>, i: int)
    requires
        forall|p: int, q: int| 0 <= p <= q < samples.len() ==> samples[p] <= samples[q],
        0 <= i,
        i + 1 < interpolated(samples).len(),
    ensures
        interpolated(samples)[i] <= interpolated(samples)[i + 1],
{
    if samples.len() >= 2 {
        lemma_line_step(samples, 2 * i);
        lemma_line_step(samples, 2 * i + 1);
        lemma_line_bounds(samples, 2 * i, i16::MIN as int, i16::MAX as int);
        lemma_line_bounds(samples, 2 * i + 2, i16::MIN as int, i16::MAX as int);
        assert(2 * (i + 1) == 2 * i + 2);
        assert(line(samples, 2 * i) <= line(samples, 2 * i + 2));
    }
}

/// Interpolation keeps every second sample, at every third place.
pub proof fn law_interpolation_keeps_samples(samples: Seq<i16>, j: int)
    requires
        0 <= j,
        2 * j < samples.len(),
    ensures
        samples.len() >= 2 ==> interpolated(samples)[3 * j] == samples[2 * j],
        interpolated(samples)[0] == samples[0],
{
    if samples.len() >= 2 {
        lemma_kept(samples, j);
        lemma_kept(samples, 0);
    }
}

proof fn lemma_kept(samples: Seq<i16>, j: int)
    requires
        samples.len() >= 2,
        0 <= j,
        2 * j < samples.len(),
    ensures
        3 * j < interpolated(samples).len(),
        interpolated(samples)[3 * j] == samples[2 * j],
{
    let k = 2 * (3 * j);
    assert(k / 3 == 2 * j && k % 3 == 0);
    let a = samples[2 * j] as int;
    if 2 * j < samples.len() - 1 {
        let b = samples[2 * j + 1] as int;
        assert(a * (3 - 0) + b * 0 == 3 * a) by (nonlinear_arith);
    }
    assert(line(samples, k) == 3 * a);
    assert(arithmetic::truncated(3 * a, 3) == a);
}

/// Brings samples from 16 kHz to 24 kHz by linear interpolation.
pub fn resample_16_to_24(samples: &[i16]) -> (r: Vec<i16>)
    requires
        samples@.len() * 3 <= usize::MAX,
    ensures
        r@ == interpolated(samples@),
{
    let n: usize = samples.len();
    let mut r: Vec<i16> = Vec::new();
    if n < 2 {
        if n == 1 {
            r.push(samples[0]);
        }
        assert(r@ =~= interpolated(samples@));
        return r;
    }
    let len: usize = n * 3 / 2;
    let mut i: usize = 0;
    while i < len
        invariant
            n == samples@.len(),
            n >= 2,
            n * 3 <= usize::MAX,
            len == n * 3 / 2,
            i <= len,
            r@.len() == i,
            forall|k: int| 0 <= k < i ==> r@[k] == interpolated(samples@)[k],
        decreases len - i,
    {
        let position: usize = 2 * i;
        let j: usize = position / 3;
        let f: usize = position % 3;
        proof {
            lemma_line_bounds(samples@, position as int, i16::MIN as int, i16::MAX as int);
        }
        if j >= n - 1 {
            r.push(samples[n - 1]);
            assert(line(samples@, 2 * i) == 3 * samples@.last());
        } else {
            let a: i32 = samples[j] as i32;
            let b: i32 = samples[j + 1] as i32;
            let sum: i32 = if f == 0 {
                3 * a
            } else if f == 1 {
                2 * a + b
            } else {
                a + 2 * b
            };
            assert(a * (3 - f) + b * f == sum) by (nonlinear_arith)
                requires
                    f == 0 ==> sum == 3 * a,
                    f == 1 ==> sum == 2 * a + b,
                    f == 2 ==> sum == a + 2 * b,
                    f < 3,
            ;
            assert(line(samples@, 2 * i) == sum);
            r.push(third(sum) as i16);
        }
        i = i + 1;
    }
    assert(r@ =~= interpolated(samples@));
    r
}

/// The lengths at 24 kHz: half of an even number of samples at 48 kHz, and one and a half times the
/// number of samples at 16 kHz, as far as that is whole. So the same time gives the same number of
/// samples, whatever the rate.
pub proof fn law_resampled_lengths(at_16k: Seq<i16>, at_48k: Seq<i16>)
    ensures
        at_16k.len() >= 2 ==> interpolated(at_16k).len() == at_16k.len() * 3 / 2,
        at_48k.len() % 2 == 0 ==> every_second(at_48k).len() == at_48k.len() / 2,
        at_16k.len() % 2 == 0 && at_48k.len() == 3 * at_16k.len() ==> interpolated(at_16k).len()
            == every_second(at_48k).len(),
{
}

/// Samples that were captured at `rate`, at 24 kHz; those of any other rate stay as they are.
pub open spec fn at_24k(rate: u32, samples: Seq<i16>) -> Seq<i16> {
    if rate == 16000 {
        interpolated(samples)
    } else if rate == 48000 {
        every_second(samples)
    } else {
        samples
    }
}

/// The capturing of audio.
pub struct PcmCapture {
    sample_rate: u32,
    stopped: bool,
}

impl PcmCapture {
    /// The rate that is captured at.
    pub closed spec fn rate(&self) -> u32 {
        self.sample_rate
    }

    /// Whether capturing was stopped.
    pub closed spec fn stopped(&self) -> bool {
        self.stopped
    }

    /// Capturing from a device with the given rate of its own and ranges of rates.
    pub fn new(device_rate: u32, ranges: &[(u32, u32)]) -> (r: Self)
        ensures
            r.rate() == chosen_rate(device_rate, ranges@),
            !r.stopped(),
    {
        PcmCapture { sample_rate: choose_sample_rate(device_rate, ranges), stopped: false }
    }

    /// The rate that is captured at.
    pub fn sample_rate(&self) -> (r: u32)
        ensures
            r == self.rate(),
    {
        self.sample_rate
    }

    /// Takes in captured samples; once stopped, they are dropped.
    pub fn on_data(&self, pcm: Vec<i16>) -> (r: Option<PcmCaptureMessage>)
        requires
            pcm@.len() * 3 <= usize::MAX,
        ensures
            match r {
                Some(message) => !self.stopped() && message@ == CaptureMessageView::Chunk(
                    at_24k(self.rate(), pcm@),
                ),
                None => self.stopped(),
            },
    {
        if self.stopped {
            return None;
        }
        let at_24k = if self.sample_rate == 16000 {
            resample_16_to_24(pcm.as_slice())
        } else if self.sample_rate == 48000 {
            resample_48_to_24(pcm.as_slice())
        } else {
            pcm
        };
        Some(PcmCaptureMessage::Chunk(at_24k))
    }

    /// Stops capturing.
    pub fn stop(&mut self)
        ensures
            final(self).stopped(),
            final(self).rate() == old(self).rate(),
    {
        self.stopped = true;
    }
}

/// Samples captured at 24 kHz are handed on as they are, and so are those of any rate that cannot
/// be brought to it.
pub proof fn law_samples_at_24k_pass_through(c: &PcmCapture, pcm: Vec<i16>, r: Option<
    PcmCaptureMessage,
>)
    requires
        pcm@.len() * 3 <= usize::MAX,
        call_ensures(PcmCapture::on_data, (c, pcm), r),
        !c.stopped(),
        c.rate() != 16000,
        c.rate() != 48000,
    ensures
        r matches Some(PcmCaptureMessage::Chunk(samples)) && samples@ == pcm@,
{
}

/// Time is kept: of samples captured at 16, 24 or 48 kHz there are as many at 24 kHz as the same
/// time takes there.
pub proof fn law_time_is_kept(c: &PcmCapture, pcm: Vec<i16>, r: Option<PcmCaptureMessage>)
    requires
        pcm@.len() * 3 <= usize::MAX,
        call_ensures(PcmCapture::on_data, (c, pcm), r),
        !c.stopped(),
        c.rate() == 16000 || c.rate() == 24000 || c.rate() == 48000,
        pcm@.len() >= 2,
        pcm@.len() * 24000 % (c.rate() as nat) == 0,
    ensures
        r matches Some(PcmCaptureMessage::Chunk(samples)) && samples@.len() == pcm@.len() * 24000 / (
        c.rate() as nat),
{
    let n = pcm@.len() as int;
    if c.rate() == 16000 {
        assert(n * 24000 / 16000 == n * 3 / 2);
        assert(n * 24000 % 16000 == 0 ==> n % 2 == 0);
    } else if c.rate() == 24000 {
        assert(n * 24000 / 24000 == n);
    } else {
        assert(n * 24000 % 48000 == 0 ==> n % 2 == 0);
        assert(n * 24000 / 48000 == n / 2);
    }
}

/// Of samples at 48 kHz every second one is kept as it is, from the first on, and none besides.
pub proof fn law_48k_keeps_every_second(c: &PcmCapture, pcm: Vec<i16>, r: Option<PcmCaptureMessage>)
    requires
        pcm@.len() * 3 <= usize::MAX,
        call_ensures(PcmCapture::on_data, (c, pcm), r),
        !c.stopped(),
        c.rate() == 48000,
    ensures
        r matches Some(PcmCaptureMessage::Chunk(samples)) && {
            &&& 2 * samples@.len() == pcm@.len() || 2 * samples@.len() == pcm@.len() + 1
            &&& forall|i: int| 0 <= i < samples@.len() ==> #[trigger] samples@[i] == pcm@[2 * i]
        },
{
}

/// Samples at 16 kHz that lie on a line lie on the same line at 24 kHz, up to the last of them.
pub proof fn law_16k_keeps_lines(
    c: &PcmCapture,
    pcm: Vec<i16>,
    r: Option<PcmCaptureMessage>,
    start: int,
    slope: int,
    i: int,
)
    requires
        pcm@.len() * 3 <= usize::MAX,
        call_ensures(PcmCapture::on_data, (c, pcm), r),
        !c.stopped(),
        c.rate() == 16000,
        pcm@.len() >= 2,
        forall|j: int| 0 <= j < pcm@.len() ==> #[trigger] pcm@[j] == start + 3 * slope * j,
        0 <= i,
        2 * i <= 3 * (pcm@.len() - 1),
    ensures
        r matches Some(PcmCaptureMessage::Chunk(samples)) && i < samples@.len() && samples@[i]
            == start + 2 * slope * i,
{
    let s = pcm@;
    let k = 2 * i;
    let j = k / 3;
    let f = k % 3;
    let value = start + 2 * slope * i;
    assert(k == 3 * j + f);
    assert(i < s.len() * 3 / 2);
    if j >= s.len() - 1 {
        assert(j == s.len() - 1 && f == 0);
        assert(s.last() == start + 3 * slope * j);
        assert(3 * slope * j == 2 * slope * i) by (nonlinear_arith)
            requires
                2 * i == 3 * j,
        ;
        assert(line(s, k) == 3 * value);
    } else {
        let a = s[j] as int;
        let b = s[j + 1] as int;
        assert(a == start + 3 * slope * j);
        assert(b == start + 3 * slope * (j + 1));
        assert(a * (3 - f) + b * f == 3 * value) by (nonlinear_arith)
            requires
                a == start + 3 * slope * j,
                b == start + 3 * slope * (j + 1),
                value == start + 2 * slope * i,
                2 * i == 3 * j + f,
        ;
    }
    assert(line(s, k) == 3 * value);
    lemma_line_bounds(s, k, i16::MIN as int, i16::MAX as int);
    assert(arithmetic::truncated(3 * value, 3) == value);
    assert(interpolated(s)[i] == value as i16);
}

/// Once stopped nothing is captured, and until then everything is.
pub proof fn law_capture_stops(
    c: &PcmCapture,
    pcm: Vec<i16>,
    r: Option<PcmCaptureMessage>,
    d: &mut PcmCapture,
)
    requires
        pcm@.len() * 3 <= usize::MAX,
        call_ensures(PcmCapture::on_data, (c, pcm), r),
        call_ensures(PcmCapture::stop, (d,), ()),
    ensures
        r is None <==> c.stopped(),
        final(d).stopped(),
        final(d).rate() == old(d).rate(),
{
}

/// The rate that is captured at is the device's own where that is 16, 24 or 48 kHz. Else it is the
/// highest of them that lies in one of the device's ranges, and the device's own only where none
/// does.
pub proof fn law_best_rate_is_chosen(device_rate: u32, ranges: &[(u32, u32)], c: PcmCapture, i: int)
    requires
        call_ensures(PcmCapture::new, (device_rate, ranges), c),
        0 <= i < ranges@.len(),
    ensures
        !c.stopped(),
        device_rate == 16000 || device_rate == 24000 || device_rate == 48000 ==> c.rate()
            == device_rate,
        !(device_rate == 16000 || device_rate == 24000 || device_rate == 48000) ==> {
            &&& ranges@[i].0 <= 48000 <= ranges@[i].1 ==> c.rate() == 48000
            &&& ranges@[i].0 <= 24000 <= ranges@[i].1 ==> c.rate() == 48000 || c.rate() == 24000
            &&& ranges@[i].0 <= 16000 <= ranges@[i].1 ==> c.rate() == 48000 || c.rate() == 24000
                || c.rate() == 16000
            &&& c.rate() == device_rate || exists|k: int|
                0 <= k < ranges@.len() && (#[trigger] ranges@[k]).0 <= c.rate() <= ranges@[k].1
        },
{
    if ranges@[i].0 <= 48000 <= ranges@[i].1 {
        assert(supports(ranges@, 48000));
    }
    if ranges@[i].0 <= 24000 <= ranges@[i].1 {
        assert(supports(ranges@, 24000));
    }
    if ranges@[i].0 <= 16000 <= ranges@[i].1 {
        assert(supports(ranges@, 16000));
    }
}

/// A rate is supported exactly where it lies in one of the device's ranges, their ends included;
/// and capturing chooses as it is chosen.
pub proof fn law_supported_rates(
    ranges: &[(u32, u32)],
    rate: u32,
    r: bool,
    device_rate: u32,
    chosen: u32,
    c: PcmCapture,
)
    requires
        call_ensures(supports_sample_rate, (ranges, rate), r),
        call_ensures(choose_sample_rate, (device_rate, ranges), chosen),
        call_ensures(PcmCapture::new, (device_rate, ranges), c),
    ensures
        r <==> exists|i: int|
            0 <= i < ranges@.len() && (#[trigger] ranges@[i]).0 <= rate && rate <= ranges@[i].1,
        c.rate() == chosen,
{
    if r {
        let i = choose|i: int|
            0 <= i < ranges@.len() && #[trigger] ranges@[i].0 <= rate <= ranges@[i].1;
        assert(ranges@[i].0 <= rate && rate <= ranges@[i].1);
    }
    if exists|i: int|
        0 <= i < ranges@.len() && (#[trigger] ranges@[i]).0 <= rate && rate <= ranges@[i].1 {
        let i = choose|i: int|
            0 <= i < ranges@.len() && (#[trigger] ranges@[i]).0 <= rate && rate <= ranges@[i].1;
        assert(ranges@[i].0 <= rate <= ranges@[i].1);
    }
}

/// Resampling by itself does what capturing does with it.
pub proof fn law_resampling(samples: &[i16], half: Vec<i16>, more: Vec<i16>, i: int)
    requires
        samples@.len() * 3 <= usize::MAX,
        call_ensures(resample_48_to_24, (samples,), half),
        call_ensures(resample_16_to_24, (samples,), more),
    ensures
        2 * half@.len() == samples@.len() || 2 * half@.len() == samples@.len() + 1,
        0 <= i < half@.len() ==> half@[i] == samples@[2 * i],
        samples@.len() >= 2 ==> 2 * more@.len() == 3 * samples@.len() || 2 * more@.len() == 3
            * samples@.len() - 1,
        samples@.len() < 2 ==> more@ == samples@,
        0 <= i && 2 * i < samples@.len() && samples@.len() >= 2 ==> 3 * i < more@.len()
            && more@[3 * i] == samples@[2 * i],
{
    if 0 <= i && 2 * i < samples@.len() && samples@.len() >= 2 {
        lemma_kept(samples@, i);
    }
}

} // verus!
