//! What speech recognition reports, and when the user is taken to have finished.

use vstd::prelude::*;
use vstd::string::*;

use crate::clock::MonotonicTime;
use crate::ieee754::F32Bits;
use crate::text::trim_text;
use crate::voice_agent::event::{EventView, VoiceAgentEvent};
use crate::{text, views};

verus! {

/// The horizon whose inactivity probability is looked at.
pub const VAD_INDEX_TO_CHECK: usize = 2;

/// The inactivity probability above which recognition is flushed: 0.6.
pub const FLUSH_PROBABILITY: u32 = 0x3F19_999A;

/// How long after a flush the user is taken to have finished.
pub const PAUSE_AFTER_FLUSH_MS: u64 = 600;

/// An event of speech recognition.
#[derive(Debug)]
pub enum SttEvent {
    /// Time has passed; the probabilities that the user is inactive, by horizon.
    Step { vad: Vec<F32Bits> },
    /// Words were recognized.
    Text { text: String },
    /// The end of recognized words.
    EndText,
    /// Recognition is ready.
    Ready,
    /// Recognition failed.
    Error { message: String, code: String },
    /// Nothing more is recognized.
    EndOfStream,
    /// The connection was closed.
    Close,
    Ping,
    Pong,
    Frame,
}

/// What came of waiting for an event of speech recognition.
#[derive(Debug)]
pub enum SttInput {
    Event(SttEvent),
    /// There is no connection.
    NotConnected,
    /// Waiting failed.
    Failed(String),
}

/// What an event of speech recognition calls for.
#[derive(Debug)]
pub enum ListenStep {
    /// Make recognition hand out what it holds back, then report the time of it.
    FlushBySilence,
    /// Look whether the user has finished.
    CheckPause,
    /// Take the connection to be in need of renewal.
    SetReconnecting,
    /// Send an event to the main loop.
    Send(VoiceAgentEvent),
}

/// The mathematical counterpart of a [`ListenStep`].
pub enum ListenStepView {
    FlushBySilence,
    CheckPause,
    SetReconnecting,
    Send(EventView),
}

impl View for ListenStep {
    type V = ListenStepView;

    open spec fn view(&self) -> ListenStepView {
        match *self {
            ListenStep::FlushBySilence => ListenStepView::FlushBySilence,
            ListenStep::CheckPause => ListenStepView::CheckPause,
            ListenStep::SetReconnecting => ListenStepView::SetReconnecting,
            ListenStep::Send(e) => ListenStepView::Send(e@),
        }
    }
}

/// The inactivity probability that counts: that of the horizon looked at, or zero.
pub open spec fn inactivity(vad: Seq<F32Bits>) -> F32Bits {
    if vad.len() > VAD_INDEX_TO_CHECK {
        vad[VAD_INDEX_TO_CHECK as int]
    } else {
        F32Bits { bits: 0 }
    }
}

/// What words add to what the user says: the words without the white space around them, set off
/// by a space.
pub open spec fn said(words: Seq<char>) -> Seq<char> {
    if text::trimmed(words).len() > 0 {
        seq![' '] + text::trimmed(words)
    } else {
        seq![]
    }
}

/// The steps that a failure calls for.
pub open spec fn failure(event: EventView) -> Seq<ListenStepView> {
    seq![ListenStepView::SetReconnecting, ListenStepView::Send(event)]
}

/// The mathematical counterpart of a [`Listener`].
pub struct ListenerView {
    /// What the user has said and not finished.
    pub pending: Seq<char>,
    /// Whether recognition was flushed since.
    pub flushed: bool,
    /// When it was flushed last.
    pub flushed_at: MonotonicTime,
}

impl ListenerView {
    /// What an event calls for.
    pub open spec fn steps(self, input: SttInput) -> Seq<ListenStepView> {
        match input {
            SttInput::Event(SttEvent::Step { vad }) => if self.pending.len() > 0 && !self.flushed
                && inactivity(vad@).greater_than(F32Bits { bits: FLUSH_PROBABILITY }) {
                seq![ListenStepView::FlushBySilence, ListenStepView::CheckPause]
            } else {
                seq![ListenStepView::CheckPause]
            },
            SttInput::Event(SttEvent::Text { text }) => if text::trimmed(text@).len() > 0 {
                seq![ListenStepView::Send(EventView::UserBreak(text::trimmed(text@)))]
            } else {
                seq![]
            },
            SttInput::Event(SttEvent::Error { message, code }) => failure(
                EventView::SttError(
                    "STT error: "@ + message@ + " (code: "@ + code@ + ")"@,
                ),
            ),
            SttInput::Event(SttEvent::EndOfStream) => failure(EventView::SttCloseOrEos),
            SttInput::Event(SttEvent::Close) => failure(EventView::SttCloseOrEos),
            SttInput::Event(_) => seq![],
            SttInput::NotConnected => failure(EventView::SttError("STT client not connected"@)),
            SttInput::Failed(e) => failure(EventView::SttError("STT event error: "@ + e@)),
        }
    }

    /// The listener after an event.
    pub open spec fn after(self, input: SttInput) -> ListenerView {
        match input {
            SttInput::Event(SttEvent::Text { text }) => ListenerView {
                pending: self.pending + said(text@),
                ..self
            },
            _ => self,
        }
    }

    /// The listener after a flush.
    pub open spec fn after_flush(self, now: MonotonicTime) -> ListenerView {
        ListenerView { flushed: true, flushed_at: now, ..self }
    }

    /// Whether the user has finished.
    pub open spec fn is_finished(self, now: MonotonicTime) -> bool {
        self.pending.len() > 0 && self.flushed && self.flushed_at.millis_until(now)
            > PAUSE_AFTER_FLUSH_MS
    }

    /// The listener after a look whether the user has finished.
    pub open spec fn after_check(self, now: MonotonicTime) -> ListenerView {
        if self.is_finished(now) {
            ListenerView { pending: seq![], flushed: false, ..self }
        } else {
            self
        }
    }

    /// What is handed on as the user's input when it is looked whether the user has finished.
    pub open spec fn delivered(self, now: MonotonicTime) -> Seq<char> {
        match self.check(now) {
            Some(EventView::UserInput(input)) => input,
            _ => seq![],
        }
    }

    /// The event that a look whether the user has finished leads to.
    pub open spec fn check(self, now: MonotonicTime) -> Option<EventView> {
        if self.is_finished(now) {
            Some(EventView::UserInput(self.pending))
        } else {
            None
        }
    }
}

/// Something that happens to a listener.
pub enum Happening {
    /// An event of speech recognition came.
    Input(SttInput),
    /// Recognition was flushed.
    Flushed(MonotonicTime),
    /// It was looked whether the user has finished.
    Checked(MonotonicTime),
}

impl ListenerView {
    /// The listener after something happened.
    pub open spec fn after_happening(self, h: Happening) -> ListenerView {
        match h {
            Happening::Input(input) => self.after(input),
            Happening::Flushed(now) => self.after_flush(now),
            Happening::Checked(now) => self.after_check(now),
        }
    }

    /// The listener after several things happened.
    pub open spec fn after_all(self, hs: Seq<Happening>) -> ListenerView
        decreases hs.len(),
    {
        if hs.len() == 0 {
            self
        } else {
            self.after_all(hs.drop_last()).after_happening(hs.last())
        }
    }

    /// All that was handed on as the user's input while several things happened.
    pub open spec fn delivered_all(self, hs: Seq<Happening>) -> Seq<char>
        decreases hs.len(),
    {
        if hs.len() == 0 {
            seq![]
        } else {
            let before = self.delivered_all(hs.drop_last());
            match hs.last() {
                Happening::Checked(now) => before + self.after_all(hs.drop_last()).delivered(now),
                _ => before,
            }
        }
    }
}

/// All that the user said while several things happened.
pub open spec fn said_all(hs: Seq<Happening>) -> Seq<char>
    decreases hs.len(),
{
    if hs.len() == 0 {
        seq![]
    } else {
        let before = said_all(hs.drop_last());
        match hs.last() {
            Happening::Input(SttInput::Event(SttEvent::Text { text })) => before + said(text@),
            _ => before,
        }
    }
}

/// Nothing that the user says is lost, doubled or put out of order: what was handed on, followed
/// by what is pending, is what was pending at first followed by all that the user said.
pub proof fn law_nothing_said_is_lost(l: ListenerView, hs: Seq<Happening>)
    ensures
        l.delivered_all(hs) + l.after_all(hs).pending == l.pending + said_all(hs),
    decreases hs.len(),
{
    if hs.len() == 0 {
        assert(l.delivered_all(hs) + l.after_all(hs).pending =~= l.pending + said_all(hs));
    } else {
        let init = hs.drop_last();
        law_nothing_said_is_lost(l, init);
        let before = l.after_all(init);
        assert(l.delivered_all(hs) + l.after_all(hs).pending =~= (l.delivered_all(init)
            + before.pending) + match hs.last() {
            Happening::Input(SttInput::Event(SttEvent::Text { text })) => said(text@),
            _ => seq![],
        });
        assert(l.pending + said_all(hs) =~= (l.pending + said_all(init)) + match hs.last() {
            Happening::Input(SttInput::Event(SttEvent::Text { text })) => said(text@),
            _ => seq![],
        });
    }
}

/// Input is handed on only after a flush that came after the last delivery, and only once more
/// than the pause has passed since.
pub proof fn law_delivery_follows_a_flush(l: ListenerView, now: MonotonicTime, later: MonotonicTime)
    ensures
        l.is_finished(now) ==> l.flushed && l.flushed_at.millis_until(now) > PAUSE_AFTER_FLUSH_MS,
        l.is_finished(now) ==> !l.after_check(now).is_finished(later),
{
}

/// What the user has said and not finished.
pub struct Listener {
    pending_text: String,
    flushed: bool,
    flush_ts: MonotonicTime,
}

impl View for Listener {
    type V = ListenerView;

    closed spec fn view(&self) -> ListenerView {
        ListenerView {
            pending: self.pending_text@,
            flushed: self.flushed,
            flushed_at: self.flush_ts,
        }
    }
}

impl Listener {
    /// A listener to whom nothing was said yet.
    pub fn new(now: MonotonicTime) -> (r: Self)
        ensures
            r@ == (ListenerView { pending: seq![], flushed: false, flushed_at: now }),
    {
        let r = Listener { pending_text: String::new(), flushed: false, flush_ts: now };
        assert(r@.pending =~= seq![]);
        r
    }

    /// Takes in what came of waiting for an event.
    pub fn on_event(&mut self, input: SttInput) -> (r: Vec<ListenStep>)
        ensures
            final(self)@ == old(self)@.after(input),
            views::of(r@) == old(self)@.steps(input),
    {
        broadcast use views::group_views;

        let mut r: Vec<ListenStep> = Vec::new();
        let ghost before = self@;
        match &input {
            SttInput::Event(SttEvent::Step { vad }) => {
                let inactivity_prob = if vad.len() > VAD_INDEX_TO_CHECK {
                    vad[VAD_INDEX_TO_CHECK]
                } else {
                    F32Bits { bits: 0 }
                };
                if !self.pending_text.as_str().is_empty() && !self.flushed && inactivity_prob.gt(
                    F32Bits { bits: FLUSH_PROBABILITY },
                ) {
                    r.push(ListenStep::FlushBySilence);
                }
                r.push(ListenStep::CheckPause);
            },
            SttInput::Event(SttEvent::Text { text }) => {
                let words = trim_text(text.as_str());
                if !words.is_empty() {
                    self.pending_text.append(" ");
                    self.pending_text.append(words);
                    proof {
                        reveal_strlit(" ");
                    }
                    assert(self@.pending =~= before.pending + said(text@));
                    r.push(ListenStep::Send(VoiceAgentEvent::UserBreak(words.to_owned())));
                } else {
                    assert(self@.pending =~= before.pending + said(text@));
                }
            },
            SttInput::Event(SttEvent::Error { message, code }) => {
                let mut report = "STT error: ".to_owned();
                report.append(message.as_str());
                report.append(" (code: ");
                report.append(code.as_str());
                report.append(")");
                r.push(ListenStep::SetReconnecting);
                r.push(ListenStep::Send(VoiceAgentEvent::SttError(report)));
            },
            SttInput::Event(SttEvent::EndOfStream) => {
                r.push(ListenStep::SetReconnecting);
                r.push(ListenStep::Send(VoiceAgentEvent::SttCloseOrEos));
            },
            SttInput::Event(SttEvent::Close) => {
                r.push(ListenStep::SetReconnecting);
                r.push(ListenStep::Send(VoiceAgentEvent::SttCloseOrEos));
            },
            SttInput::Event(_) => {},
            SttInput::NotConnected => {
                r.push(ListenStep::SetReconnecting);
                r.push(
                    ListenStep::Send(
                        VoiceAgentEvent::SttError("STT client not connected".to_owned()),
                    ),
                );
            },
            SttInput::Failed(e) => {
                let mut report = "STT event error: ".to_owned();
                report.append(e.as_str());
                r.push(ListenStep::SetReconnecting);
                r.push(ListenStep::Send(VoiceAgentEvent::SttError(report)));
            },
        }
        assert(views::of(r@) =~= before.steps(input));
        r
    }

    /// Takes in that recognition was flushed, or that it was tried in vain.
    pub fn on_flushed(&mut self, now: MonotonicTime)
        ensures
            final(self)@ == old(self)@.after_flush(now),
    {
        self.flushed = true;
        self.flush_ts = now;
    }

    /// Looks whether the user has finished, and hands on what was said.
    pub fn check_pause(&mut self, now: MonotonicTime) -> (r: Option<VoiceAgentEvent>)
        ensures
            final(self)@ == old(self)@.after_check(now),
            views::opt(r) == old(self)@.check(now),
            match r {
                Some(event) => old(self)@.is_finished(now) && event@ == EventView::UserInput(
                    old(self)@.pending,
                ),
                None => !old(self)@.is_finished(now),
            },
    {
        if !self.pending_text.as_str().is_empty() && self.flushed && self.flush_ts.elapsed_millis(
            now,
        ) > PAUSE_AFTER_FLUSH_MS {
            let user_input = self.pending_text.clone();
            self.pending_text = String::new();
            self.flushed = false;
            assert(self@.pending =~= seq![]);
            Some(VoiceAgentEvent::UserInput(user_input))
        } else {
            None
        }
    }
}

/// Nothing of a word is lost: what a text adds to what the user says is, but for white space, the
/// text itself. The words are set off from what came before, and are kept as they are.
pub proof fn law_words_are_kept(l: &mut Listener, text: String, r: Vec<ListenStep>)
    requires
        call_ensures(Listener::on_event, (l, SttInput::Event(SttEvent::Text { text })), r),
    ensures
        text::dense(final(l)@.pending) == text::dense(old(l)@.pending) + text::dense(text@),
        ({
            let before = old(l)@.pending;
            let after = final(l)@.pending;
            &&& text::is_blank(text@) ==> after == before
            &&& !text::is_blank(text@) ==> exists|words: Seq<char>|
                text::is_core(words, text@) && after == #[trigger] (before + seq![' '] + words)
        }),
        final(l)@.flushed == old(l)@.flushed,
        final(l)@.flushed_at == old(l)@.flushed_at,
{
    let words = text::trimmed(text@);
    let before = old(l)@.pending;
    text::law_trimming(text@);
    lemma_said_is_dense(text@);
    text::lemma_dense_add(before, said(text@));
    if words.len() > 0 {
        assert(before + said(text@) =~= before + seq![' '] + words);
        assert(final(l)@.pending == before + seq![' '] + words);
    } else {
        assert(before + said(text@) =~= before);
    }
}

proof fn lemma_said_is_dense(words: Seq<char>)
    ensures
        text::dense(said(words)) == text::dense(words),
{
    text::law_trimming(words);
    text::lemma_dense_trimmed(words);
    text::law_dense(seq![' '], text::trimmed(words), ' ');
    if text::trimmed(words).len() > 0 {
        assert(text::dense(seq![' ']) + text::dense(text::trimmed(words)) =~= text::dense(words));
    } else {
        assert(text::dense(words) =~= seq![]);
    }
}

/// The texts that were recognized while several things happened, put together.
pub open spec fn recognized(hs: Seq<Happening>) -> Seq<char>
    decreases hs.len(),
{
    if hs.len() == 0 {
        seq![]
    } else {
        match hs.last() {
            Happening::Input(SttInput::Event(SttEvent::Text { text })) => recognized(hs.drop_last())
                + text@,
            _ => recognized(hs.drop_last()),
        }
    }
}

/// Whatever was recognized reaches the language model, or is still pending: but for white space,
/// all that was handed on as the user's input and what is pending are the texts that were
/// recognized, in order.
pub proof fn law_recognized_texts_are_delivered(l: ListenerView, hs: Seq<Happening>)
    requires
        l.pending.len() == 0,
    ensures
        text::dense(l.delivered_all(hs) + l.after_all(hs).pending) == text::dense(recognized(hs)),
{
    law_nothing_said_is_lost(l, hs);
    assert(l.pending + said_all(hs) =~= said_all(hs));
    lemma_recognized(hs);
}

proof fn lemma_recognized(hs: Seq<Happening>)
    ensures
        text::dense(said_all(hs)) == text::dense(recognized(hs)),
    decreases hs.len(),
{
    if hs.len() > 0 {
        let init = hs.drop_last();
        lemma_recognized(init);
        if let Happening::Input(SttInput::Event(SttEvent::Text { text })) = hs.last() {
            text::lemma_dense_add(said_all(init), said(text@));
            text::lemma_dense_add(recognized(init), text@);
            lemma_said_is_dense(text@);
        }
    }
}

/// Every word interrupts: a text that holds more than white space has the main loop told of it, at
/// once and with nothing else to do, and one that does not calls for nothing.
pub proof fn law_every_word_interrupts(l: &mut Listener, text: String, r: Vec<ListenStep>)
    requires
        call_ensures(Listener::on_event, (l, SttInput::Event(SttEvent::Text { text })), r),
    ensures
        text::is_blank(text@) ==> r@.len() == 0,
        !text::is_blank(text@) ==> r@.len() == 1 && (r@[0] matches ListenStep::Send(
            VoiceAgentEvent::UserBreak(words),
        ) && text::is_core(words@, text@)),
{
    text::law_trimming(text@);
    lemma_steps_at(r@);
}

/// The views of steps, one by one.
proof fn lemma_steps_at(steps: Seq<ListenStep>)
    ensures
        views::of(steps).len() == steps.len(),
        forall|i: int| 0 <= i < steps.len() ==> views::of(steps)[i] == (#[trigger] steps[i])@,
{
}

/// Whenever time has passed it is looked whether the user has finished, and recognition is flushed
/// before exactly where something was said that was not flushed yet and the third horizon gives
/// the user as inactive with a probability above 0.6.
pub proof fn law_silence_flushes(l: &mut Listener, vad: Vec<F32Bits>, r: Vec<ListenStep>)
    requires
        call_ensures(Listener::on_event, (l, SttInput::Event(SttEvent::Step { vad })), r),
    ensures
        r@.len() > 0,
        r@.last() is CheckPause,
        r@.len() == 2 <==> old(l)@.pending.len() > 0 && !old(l)@.flushed && vad@.len() >= 3
            && vad@[2].greater_than(F32Bits { bits: 0x3F19_999A }),
        r@.len() <= 2,
        r@.len() == 2 ==> r@[0] is FlushBySilence,
        final(l)@ == old(l)@,
{
    lemma_steps_at(r@);
}

/// What was said is handed on, whole and as it is, exactly where there is something, recognition
/// was flushed behind it, and at least 601 milliseconds have passed since; nothing of it is then
/// pending any more. Else all stays as it was.
pub proof fn law_finished_input_is_delivered(
    l: &mut Listener,
    now: MonotonicTime,
    r: Option<VoiceAgentEvent>,
)
    requires
        call_ensures(Listener::check_pause, (l, now), r),
    ensures
        r is Some <==> old(l)@.pending.len() > 0 && old(l)@.flushed && now.nanos
            >= old(l)@.flushed_at.nanos + 601_000_000,
        r is Some ==> (r->0 matches VoiceAgentEvent::UserInput(input) && input@ == old(l)@.pending),
        r is Some ==> final(l)@.pending.len() == 0 && !final(l)@.flushed,
        r is None ==> final(l)@ == old(l)@,
{
    let since = now.nanos - old(l)@.flushed_at.nanos;
    assert(since >= 601_000_000 <==> since / 1_000_000 > 600);
}

/// A flush is remembered with its time, and changes nothing of what was said.
pub proof fn law_flush_is_remembered(l: &mut Listener, now: MonotonicTime)
    requires
        call_ensures(Listener::on_flushed, (l, now), ()),
    ensures
        final(l)@.flushed,
        final(l)@.flushed_at == now,
        final(l)@.pending == old(l)@.pending,
{
}

/// Whether an input reports a failure or the end of recognition.
pub open spec fn is_failure(input: SttInput) -> bool {
    match input {
        SttInput::Event(SttEvent::Error { message: _, code: _ }) => true,
        SttInput::Event(SttEvent::EndOfStream) => true,
        SttInput::Event(SttEvent::Close) => true,
        SttInput::Event(_) => false,
        SttInput::NotConnected => true,
        SttInput::Failed(_) => true,
    }
}

/// Whether `part` stands somewhere in `whole`.
pub open spec fn mentions(whole: Seq<char>, part: Seq<char>) -> bool {
    exists|before: Seq<char>, behind: Seq<char>| #[trigger] (before + part + behind) == whole
}

/// A failure has the connection taken to be in need of renewal, and then the main loop told: of the
/// end as such, and of an error with all that was reported of it. Nothing else does, and what was
/// said stays.
pub proof fn law_failures_are_reported(l: &mut Listener, input: SttInput, r: Vec<ListenStep>)
    requires
        call_ensures(Listener::on_event, (l, input), r),
    ensures
        is_failure(input) ==> r@.len() == 2 && r@[0] is SetReconnecting && r@[1] is Send,
        !is_failure(input) ==> forall|i: int|
            0 <= i < r@.len() ==> !((#[trigger] r@[i]) is SetReconnecting),
        is_failure(input) ==> final(l)@ == old(l)@,
        is_failure(input) ==> match input {
            SttInput::Event(SttEvent::Error { message, code }) => r@[1] matches ListenStep::Send(
                VoiceAgentEvent::SttError(report),
            ) && mentions(report@, message@) && mentions(report@, code@),
            SttInput::Failed(e) => r@[1] matches ListenStep::Send(VoiceAgentEvent::SttError(report))
                && mentions(report@, e@),
            SttInput::NotConnected => r@[1] matches ListenStep::Send(VoiceAgentEvent::SttError(_)),
            _ => r@[1] matches ListenStep::Send(VoiceAgentEvent::SttCloseOrEos),
        },
{
    lemma_steps_at(r@);
    match input {
        SttInput::Event(SttEvent::Error { message, code }) => {
            let report = "STT error: "@ + message@ + " (code: "@ + code@ + ")"@;
            assert("STT error: "@ + message@ + (" (code: "@ + code@ + ")"@) =~= report);
            assert(mentions(report, message@));
            assert(("STT error: "@ + message@ + " (code: "@) + code@ + ")"@ =~= report);
            assert(mentions(report, code@));
        },
        SttInput::Failed(e) => {
            let report = "STT event error: "@ + e@;
            assert("STT event error: "@ + e@ + seq![] =~= report);
            assert(mentions(report, e@));
        },
        _ => {},
    }
}

/// A listener begins with nothing said.
pub proof fn law_listener_begins(now: MonotonicTime, l: Listener)
    requires
        call_ensures(Listener::new, (now,), l),
    ensures
        l@.pending.len() == 0,
        !l@.flushed,
{
}

/// Nothing but words changes what the user has said, and nothing but words, the passing of time and
/// failures calls for anything.
pub proof fn law_other_events_are_passed_over(l: &mut Listener, input: SttInput, r: Vec<ListenStep>)
    requires
        call_ensures(Listener::on_event, (l, input), r),
        !(input matches SttInput::Event(SttEvent::Text { text: _ })),
    ensures
        final(l)@ == old(l)@,
        !is_failure(input) && !(input matches SttInput::Event(SttEvent::Step { vad: _ })) ==> r@.len()
            == 0,
{
    lemma_steps_at(r@);
}

} // verus!
