//! Recognizing a pause in what the user says.

use vstd::prelude::*;
use vstd::string::*;

use crate::clock::MonotonicTime;
use crate::ieee754::F32Bits;

verus! {

/// How long ago the last words must be.
pub const PAUSE_THRESHOLD_MS: u64 = 0;

/// How long ago the last flush must be.
pub const FLUSH_THRESHOLD_MS: u64 = 400;

/// The inactivity probability that must be exceeded: 0.7.
pub const PAUSE_THRESHOLD_INACTIVITY_PROB: u32 = 0x3F33_3333;

/// The mathematical counterpart of a [`PauseDetector`].
pub struct PauseView {
    pub inactivity_prob: F32Bits,
    pub last_text_time: Option<MonotonicTime>,
    pub last_flush_time: Option<MonotonicTime>,
}

impl PauseView {
    /// A detector that knows nothing.
    pub open spec fn fresh() -> PauseView {
        PauseView {
            inactivity_prob: F32Bits { bits: 0 },
            last_text_time: None,
            last_flush_time: None,
        }
    }

    /// Whether the user is probably inactive.
    pub open spec fn is_in_high_inactivity(self) -> bool {
        self.inactivity_prob.greater_than(F32Bits { bits: PAUSE_THRESHOLD_INACTIVITY_PROB })
    }

    /// Whether the user pauses: there were words and a flush, both long enough ago, and the user
    /// is probably inactive.
    pub open spec fn is_paused(self, now: MonotonicTime) -> bool {
        match (self.last_text_time, self.last_flush_time) {
            (Some(text), Some(flush)) => {
                &&& text.millis_until(now) >= PAUSE_THRESHOLD_MS
                &&& flush.millis_until(now) >= FLUSH_THRESHOLD_MS
                &&& self.is_in_high_inactivity()
            },
            _ => false,
        }
    }
}

/// A pause goes on: with nothing new heard, what is a pause now is one later.
pub proof fn law_pause_goes_on(d: PauseView, now: MonotonicTime, later: MonotonicTime)
    requires
        d.is_paused(now),
        now.nanos <= later.nanos,
    ensures
        d.is_paused(later),
{
}

/// Recognizes pauses.
pub struct PauseDetector {
    inactivity_prob: F32Bits,
    last_text_time: Option<MonotonicTime>,
    last_flush_time: Option<MonotonicTime>,
}

impl View for PauseDetector {
    type V = PauseView;

    closed spec fn view(&self) -> PauseView {
        PauseView {
            inactivity_prob: self.inactivity_prob,
            last_text_time: self.last_text_time,
            last_flush_time: self.last_flush_time,
        }
    }
}

impl PauseDetector {
    /// A detector that knows nothing.
    pub fn new() -> (r: Self)
        ensures
            r@ == PauseView::fresh(),
    {
        PauseDetector {
            inactivity_prob: F32Bits { bits: 0 },
            last_text_time: None,
            last_flush_time: None,
        }
    }

    /// Takes in the probability that the user is inactive.
    pub fn add_inactivity_prob(&mut self, inactivity_prob: F32Bits)
        ensures
            final(self)@ == (PauseView { inactivity_prob, ..old(self)@ }),
    {
        self.inactivity_prob = inactivity_prob;
    }

    /// Whether the user is probably inactive.
    pub fn is_in_high_inactivity(&self) -> (r: bool)
        ensures
            r == self@.is_in_high_inactivity(),
    {
        self.inactivity_prob.gt(F32Bits { bits: PAUSE_THRESHOLD_INACTIVITY_PROB })
    }

    /// Takes in recognized words.
    pub fn add_text(&mut self, text: &str, now: MonotonicTime)
        ensures
            final(self)@ == if text@.len() == 0 {
                old(self)@
            } else {
                PauseView { last_text_time: Some(now), ..old(self)@ }
            },
    {
        if text.is_empty() {
            return ;
        }
        self.last_text_time = Some(now);
    }

    /// Takes in that recognition was flushed.
    pub fn on_flush(&mut self, now: MonotonicTime)
        ensures
            final(self)@ == (PauseView { last_flush_time: Some(now), ..old(self)@ }),
    {
        self.last_flush_time = Some(now);
    }

    /// Whether the user pauses.
    pub fn is_paused(&self, now: MonotonicTime) -> (r: bool)
        ensures
            r == self@.is_paused(now),
    {
        match (self.last_text_time, self.last_flush_time) {
            (Some(text), Some(flush)) => text.elapsed_millis(now) >= PAUSE_THRESHOLD_MS
                && flush.elapsed_millis(now) >= FLUSH_THRESHOLD_MS && self.is_in_high_inactivity(),
            _ => false,
        }
    }

    /// Forgets everything.
    pub fn reset(&mut self)
        ensures
            final(self)@ == PauseView::fresh(),
    {
        self.last_text_time = None;
        self.last_flush_time = None;
        self.inactivity_prob = F32Bits { bits: 0 };
    }
}

/// A pause is recognized exactly where words were heard, recognition was flushed at least four
/// tenths of a second ago, and the user is inactive with a probability above 0.7.
pub proof fn law_pause(d: &PauseDetector, now: MonotonicTime, r: bool)
    requires
        call_ensures(PauseDetector::is_paused, (d, now), r),
    ensures
        r <==> d@.last_text_time is Some && d@.last_flush_time is Some && now.nanos
            >= d@.last_flush_time->0.nanos + 400_000_000 && d@.inactivity_prob.greater_than(
            F32Bits { bits: 0x3F33_3333 },
        ),
{
    if let Some(flush) = d@.last_flush_time {
        let since = now.nanos - flush.nanos;
        assert(since >= 400_000_000 <==> since / 1_000_000 >= 400);
    }
}

/// What is heard is remembered, the last of each kind, and nothing else changes with it; a reset
/// forgets it all.
pub proof fn law_pauses_are_prepared(
    a: &mut PauseDetector,
    b: &mut PauseDetector,
    c: &mut PauseDetector,
    d: &mut PauseDetector,
    fresh: PauseDetector,
    text: &str,
    prob: F32Bits,
    now: MonotonicTime,
)
    requires
        call_ensures(PauseDetector::add_text, (a, text, now), ()),
        call_ensures(PauseDetector::on_flush, (b, now), ()),
        call_ensures(PauseDetector::add_inactivity_prob, (c, prob), ()),
        call_ensures(PauseDetector::reset, (d,), ()),
        call_ensures(PauseDetector::new, (), fresh),
    ensures
        text@.len() > 0 ==> final(a)@.last_text_time == Some(now),
        text@.len() == 0 ==> final(a)@.last_text_time == old(a)@.last_text_time,
        final(a)@.last_flush_time == old(a)@.last_flush_time,
        final(a)@.inactivity_prob == old(a)@.inactivity_prob,
        final(b)@.last_flush_time == Some(now),
        final(b)@.last_text_time == old(b)@.last_text_time,
        final(b)@.inactivity_prob == old(b)@.inactivity_prob,
        final(c)@.inactivity_prob == prob,
        final(c)@.last_text_time == old(c)@.last_text_time,
        final(c)@.last_flush_time == old(c)@.last_flush_time,
        final(d)@ == fresh@,
        fresh@.last_text_time is None && fresh@.last_flush_time is None,
{
}

/// The user is taken to be inactive above a probability of 0.7, and not at it.
pub proof fn law_inactivity(d: &PauseDetector, r: bool)
    requires
        call_ensures(PauseDetector::is_in_high_inactivity, (d,), r),
    ensures
        r <==> d@.inactivity_prob.greater_than(F32Bits { bits: 0x3F33_3333 }),
        d@.inactivity_prob == (F32Bits { bits: 0x3F33_3333 }) ==> !r,
{
}

} // verus!
