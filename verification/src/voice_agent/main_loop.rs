//! The main loop of an agent: what each event calls for.

use vstd::prelude::*;
use vstd::string::*;

use crate::views;
use crate::voice_agent::event::{EventView, VoiceAgentEvent};
use crate::voice_agent::handler::{Notice, NoticeView};

verus! {

/// How long to wait behind a reset of the playback until it has taken effect.
pub const RESET_DELAY_MS: u64 = 10;

/// What the main loop does. The failure of an action ends the loop.
#[derive(Debug)]
pub enum Action {
    /// Tell the application.
    Notify(Notice),
    /// Hand what the user said to the application, and what comes back to the language model.
    AskHandler(String),
    /// Let no more audio of the current speech through.
    DiscardSpeech,
    /// Cancel the language model's answer.
    CancelLlm,
    /// Cancel the current speech.
    CancelSpeech,
    /// Drop what is waiting to be played.
    ResetPlayback,
    /// Wait so many milliseconds.
    WaitMs(u64),
    /// Connect to speech synthesis anew.
    ReconnectSpeech,
    /// Connect to speech recognition anew.
    ReconnectRecognition,
    /// Have a text spoken.
    Speak(String),
    /// Tell speech synthesis that nothing follows.
    EndSpeech,
    /// End the loop.
    Stop,
}

/// The mathematical counterpart of an [`Action`].
pub enum ActionView {
    Notify(NoticeView),
    AskHandler(Seq<char>),
    DiscardSpeech,
    CancelLlm,
    CancelSpeech,
    ResetPlayback,
    WaitMs(nat),
    ReconnectSpeech,
    ReconnectRecognition,
    Speak(Seq<char>),
    EndSpeech,
    Stop,
}

impl View for Action {
    type V = ActionView;

    open spec fn view(&self) -> ActionView {
        match *self {
            Action::Notify(n) => ActionView::Notify(n@),
            Action::AskHandler(s) => ActionView::AskHandler(s@),
            Action::DiscardSpeech => ActionView::DiscardSpeech,
            Action::CancelLlm => ActionView::CancelLlm,
            Action::CancelSpeech => ActionView::CancelSpeech,
            Action::ResetPlayback => ActionView::ResetPlayback,
            Action::WaitMs(ms) => ActionView::WaitMs(ms as nat),
            Action::ReconnectSpeech => ActionView::ReconnectSpeech,
            Action::ReconnectRecognition => ActionView::ReconnectRecognition,
            Action::Speak(s) => ActionView::Speak(s@),
            Action::EndSpeech => ActionView::EndSpeech,
            Action::Stop => ActionView::Stop,
        }
    }
}

/// The reset of the playback that comes before the first piece of a new answer.
pub open spec fn reset_if(is_new: bool) -> Seq<ActionView> {
    if is_new {
        seq![ActionView::ResetPlayback, ActionView::WaitMs(RESET_DELAY_MS as nat)]
    } else {
        seq![]
    }
}

/// The speaking of a piece of an answer, where it holds anything.
pub open spec fn speech(text: Seq<char>) -> Seq<ActionView> {
    if text.len() > 0 {
        seq![ActionView::Notify(NoticeView::TtsSpeech(text)), ActionView::Speak(text)]
    } else {
        seq![]
    }
}

/// What an event calls for; `is_new` tells whether an answer is awaited of which nothing has come.
pub open spec fn plan(is_new: bool, event: EventView) -> Seq<ActionView> {
    match event {
        EventView::UserInput(input) => seq![ActionView::AskHandler(input)],
        EventView::UserBreak(text) => seq![
            ActionView::Notify(NoticeView::UserBreak(text)),
            ActionView::DiscardSpeech,
            ActionView::CancelLlm,
            ActionView::CancelSpeech,
            ActionView::ResetPlayback,
        ],
        EventView::TtsSpeech(text) => seq![
            ActionView::Notify(NoticeView::TtsSpeech(text)),
            ActionView::Speak(text),
            ActionView::EndSpeech,
        ],
        EventView::TtsError(message) => seq![
            ActionView::Notify(NoticeView::TtsError(message)),
            ActionView::ReconnectSpeech,
        ],
        EventView::SttError(message) => seq![
            ActionView::Notify(NoticeView::SttError(message)),
            ActionView::ReconnectRecognition,
        ],
        EventView::TtsCloseOrEos => seq![
            ActionView::Notify(NoticeView::TtsCloseOrEos),
            ActionView::ReconnectSpeech,
        ],
        EventView::SttCloseOrEos => seq![
            ActionView::Notify(NoticeView::SttCloseOrEos),
            ActionView::ReconnectRecognition,
        ],
        EventView::LlmError(message) => seq![ActionView::Notify(NoticeView::LlmError(message))]
            + reset_if(is_new) + seq![ActionView::EndSpeech],
        EventView::Error(message) => seq![
            ActionView::Notify(NoticeView::Error(message)),
            ActionView::Stop,
        ],
        EventView::LlmResponseChunk(text) => seq![
            ActionView::Notify(NoticeView::LlmResponseChunk(text)),
        ] + reset_if(is_new) + speech(text),
        EventView::LlmResponseDone(text) => seq![
            ActionView::Notify(NoticeView::LlmResponseDone(text)),
        ] + reset_if(is_new) + speech(text) + seq![ActionView::EndSpeech],
        EventView::Shutdown => seq![ActionView::Notify(NoticeView::Shutdown), ActionView::Stop],
    }
}

/// Whether an event belongs to an answer of the language model.
pub open spec fn is_answer(event: EventView) -> bool {
    event is LlmResponseChunk || event is LlmResponseDone || event is LlmError
}

/// Whether an answer of which nothing has come is awaited behind an event.
pub open spec fn awaits_answer(is_new: bool, event: EventView) -> bool {
    if event is UserInput {
        true
    } else if event is UserBreak || is_answer(event) {
        false
    } else {
        is_new
    }
}

/// Whether an event ends the loop.
pub open spec fn ends_loop(event: EventView) -> bool {
    event is Error || event is Shutdown
}

/// The loop is told to stop by the events that end it, and by no others, and last of all.
pub proof fn law_stop_comes_last(is_new: bool, event: EventView)
    ensures
        forall|i: int|
            0 <= i < plan(is_new, event).len() ==> ((#[trigger] plan(is_new, event)[i] is Stop)
                <==> ends_loop(event) && i == plan(is_new, event).len() - 1),
{
}

/// Whatever is spoken, the application was told of it right before.
pub proof fn law_speech_is_announced(is_new: bool, event: EventView, i: int)
    requires
        0 <= i < plan(is_new, event).len(),
        plan(is_new, event)[i] is Speak,
    ensures
        i > 0,
        plan(is_new, event)[i - 1] == ActionView::Notify(
            NoticeView::TtsSpeech(plan(is_new, event)[i]->Speak_0),
        ),
{
}

/// Before the first piece of a new answer is spoken, and before its end, the playback is reset; a
/// later piece resets nothing.
pub proof fn law_new_answer_resets_playback(is_new: bool, event: EventView)
    requires
        is_answer(event),
    ensures
        is_new ==> plan(is_new, event)[1] is ResetPlayback && !(plan(is_new, event)[0] is Speak),
        is_new ==> forall|i: int|
            2 <= i < plan(is_new, event).len() ==> !(#[trigger] plan(is_new, event)[i] is ResetPlayback),
        !is_new ==> forall|i: int|
            0 <= i < plan(is_new, event).len() ==> !(#[trigger] plan(is_new, event)[i] is ResetPlayback),
        !awaits_answer(is_new, event),
{
}

/// Whether an event of an answer resets the playback.
pub open spec fn resets_for_answer(is_new: bool, event: EventView) -> bool {
    is_answer(event) && exists|i: int|
        0 <= i < plan(is_new, event).len() && #[trigger] plan(is_new, event)[i] is ResetPlayback
}

/// The number of times that answers reset the playback in the course of `events`.
pub open spec fn answer_resets(is_new: bool, events: Seq<EventView>) -> nat
    decreases events.len(),
{
    if events.len() == 0 {
        0
    } else {
        let here: nat = if resets_for_answer(is_new, events[0]) {
            1
        } else {
            0
        };
        here + answer_resets(awaits_answer(is_new, events[0]), events.drop_first())
    }
}

/// The number of times that the user said something in the course of `events`.
pub open spec fn inputs(events: Seq<EventView>) -> nat
    decreases events.len(),
{
    if events.len() == 0 {
        0
    } else {
        let here: nat = if events[0] is UserInput {
            1
        } else {
            0
        };
        here + inputs(events.drop_first())
    }
}

/// Answers reset the playback at most once for each time that the user said something. So an
/// answer that goes on after an interruption resets nothing before the user has spoken again.
pub proof fn law_one_reset_for_each_input(is_new: bool, events: Seq<EventView>)
    ensures
        answer_resets(is_new, events) <= inputs(events) + if is_new {
            1nat
        } else {
            0nat
        },
    decreases events.len(),
{
    if events.len() > 0 {
        if is_answer(events[0]) {
            law_new_answer_resets_playback(is_new, events[0]);
        }
        law_one_reset_for_each_input(awaits_answer(is_new, events[0]), events.drop_first());
    }
}

/// What is spoken in the course of actions, in order.
pub open spec fn spoken(actions: Seq<ActionView>) -> Seq<Seq<char>>
    decreases actions.len(),
{
    if actions.len() == 0 {
        seq![]
    } else {
        let before = spoken(actions.drop_last());
        match actions.last() {
            ActionView::Speak(text) => before.push(text),
            _ => before,
        }
    }
}

/// What events call for, one after the other, while none of them ends the loop.
pub open spec fn plans(is_new: bool, events: Seq<EventView>) -> Seq<ActionView>
    decreases events.len(),
{
    if events.len() == 0 {
        seq![]
    } else {
        plan(is_new, events[0]) + plans(awaits_answer(is_new, events[0]), events.drop_first())
    }
}

/// What an event has to say.
pub open spec fn to_be_spoken(event: EventView) -> Seq<Seq<char>> {
    match event {
        EventView::TtsSpeech(text) => seq![text],
        EventView::LlmResponseChunk(text) => if text.len() > 0 {
            seq![text]
        } else {
            seq![]
        },
        EventView::LlmResponseDone(text) => if text.len() > 0 {
            seq![text]
        } else {
            seq![]
        },
        _ => seq![],
    }
}

/// What events have to say, in order.
pub open spec fn all_to_be_spoken(events: Seq<EventView>) -> Seq<Seq<char>>
    decreases events.len(),
{
    if events.len() == 0 {
        seq![]
    } else {
        to_be_spoken(events[0]) + all_to_be_spoken(events.drop_first())
    }
}

/// Speech comes in the order of the actions.
pub proof fn lemma_spoken_add(a: Seq<ActionView>, b: Seq<ActionView>)
    ensures
        spoken(a + b) == spoken(a) + spoken(b),
    decreases b.len(),
{
    if b.len() == 0 {
        assert(a + b =~= a);
        assert(spoken(a) + spoken(b) =~= spoken(a));
    } else {
        assert((a + b).drop_last() =~= a + b.drop_last());
        assert((a + b).last() == b.last());
        lemma_spoken_add(a, b.drop_last());
        assert(spoken(a + b) =~= spoken(a) + spoken(b));
    }
}

proof fn lemma_spoken_plan(is_new: bool, event: EventView)
    ensures
        spoken(plan(is_new, event)) == to_be_spoken(event),
{
    let p = plan(is_new, event);
    reveal_with_fuel(spoken, 8);
    assert(spoken(p) =~= to_be_spoken(event));
}

/// All that events have to say is spoken, in the order of the events, and nothing else is.
pub proof fn law_speech_keeps_its_order(is_new: bool, events: Seq<EventView>)
    ensures
        spoken(plans(is_new, events)) == all_to_be_spoken(events),
    decreases events.len(),
{
    if events.len() > 0 {
        let next = awaits_answer(is_new, events[0]);
        lemma_spoken_plan(is_new, events[0]);
        law_speech_keeps_its_order(next, events.drop_first());
        lemma_spoken_add(plan(is_new, events[0]), plans(next, events.drop_first()));
    }
}

/// The mathematical counterpart of a [`MainLoop`].
pub struct LoopView {
    /// Whether an answer is awaited of which nothing has come.
    pub is_new: bool,
    /// Whether the loop has ended.
    pub stopped: bool,
}

/// The main loop of an agent.
pub struct MainLoop {
    is_new_llm_response: bool,
    stopped: bool,
}

impl View for MainLoop {
    type V = LoopView;

    closed spec fn view(&self) -> LoopView {
        LoopView { is_new: self.is_new_llm_response, stopped: self.stopped }
    }
}

impl MainLoop {
    /// A loop that awaits its first event.
    pub fn new() -> (r: Self)
        ensures
            r@ == (LoopView { is_new: false, stopped: false }),
    {
        MainLoop { is_new_llm_response: false, stopped: false }
    }

    /// Whether the loop has ended.
    pub fn is_stopped(&self) -> (r: bool)
        ensures
            r == self@.stopped,
    {
        self.stopped
    }

    /// Ends the loop: an action failed, or no event can come any more.
    pub fn stop(&mut self)
        ensures
            final(self)@ == (LoopView { stopped: true, ..old(self)@ }),
    {
        self.stopped = true;
    }

    fn push_reset(&self, r: &mut Vec<Action>)
        ensures
            views::of(final(r)@) == views::of(old(r)@) + reset_if(self@.is_new),
    {
        broadcast use views::group_views;

        let ghost before = views::of(r@);
        if self.is_new_llm_response {
            r.push(Action::ResetPlayback);
            r.push(Action::WaitMs(RESET_DELAY_MS));
        }
        assert(views::of(r@) =~= before + reset_if(self@.is_new));
    }

    fn push_speech(r: &mut Vec<Action>, text: String)
        ensures
            views::of(final(r)@) == views::of(old(r)@) + speech(text@),
    {
        broadcast use views::group_views;

        let ghost before = views::of(r@);
        if !text.as_str().is_empty() {
            r.push(Action::Notify(Notice::TtsSpeech(text.clone())));
            r.push(Action::Speak(text));
        }
        assert(views::of(r@) =~= before + speech(text@));
    }

    /// Takes in an event and says what it calls for. A loop that has ended does nothing more.
    pub fn on_event(&mut self, event: VoiceAgentEvent) -> (r: Vec<Action>)
        ensures
            old(self)@.stopped ==> r@.len() == 0 && final(self)@ == old(self)@,
            !old(self)@.stopped ==> views::of(r@) == plan(old(self)@.is_new, event@),
            !old(self)@.stopped ==> final(self)@ == (LoopView {
                is_new: awaits_answer(old(self)@.is_new, event@),
                stopped: ends_loop(event@),
            }),
    {
        broadcast use views::group_views;

        let mut r: Vec<Action> = Vec::new();
        if self.stopped {
            return r;
        }
        let ghost is_new = self@.is_new;
        let ghost e = event@;
        match event {
            VoiceAgentEvent::UserInput(input) => {
                self.is_new_llm_response = true;
                r.push(Action::AskHandler(input));
            },
            VoiceAgentEvent::UserBreak(text) => {
                r.push(Action::Notify(Notice::UserBreak(text)));
                r.push(Action::DiscardSpeech);
                r.push(Action::CancelLlm);
                r.push(Action::CancelSpeech);
                r.push(Action::ResetPlayback);
                self.is_new_llm_response = false;
            },
            VoiceAgentEvent::TtsCloseOrEos => {
                r.push(Action::Notify(Notice::TtsCloseOrEos));
                r.push(Action::ReconnectSpeech);
            },
            VoiceAgentEvent::TtsError(message) => {
                r.push(Action::Notify(Notice::TtsError(message)));
                r.push(Action::ReconnectSpeech);
            },
            VoiceAgentEvent::SttCloseOrEos => {
                r.push(Action::Notify(Notice::SttCloseOrEos));
                r.push(Action::ReconnectRecognition);
            },
            VoiceAgentEvent::SttError(message) => {
                r.push(Action::Notify(Notice::SttError(message)));
                r.push(Action::ReconnectRecognition);
            },
            VoiceAgentEvent::Error(message) => {
                r.push(Action::Notify(Notice::Error(message)));
                r.push(Action::Stop);
                self.stopped = true;
            },
            VoiceAgentEvent::LlmResponseChunk(text) => {
                r.push(Action::Notify(Notice::LlmResponseChunk(text.clone())));
                self.push_reset(&mut r);
                self.is_new_llm_response = false;
                MainLoop::push_speech(&mut r, text);
            },
            VoiceAgentEvent::LlmResponseDone(text) => {
                r.push(Action::Notify(Notice::LlmResponseDone(text.clone())));
                self.push_reset(&mut r);
                self.is_new_llm_response = false;
                MainLoop::push_speech(&mut r, text);
                r.push(Action::EndSpeech);
            },
            VoiceAgentEvent::LlmError(message) => {
                r.push(Action::Notify(Notice::LlmError(message)));
                self.push_reset(&mut r);
                self.is_new_llm_response = false;
                r.push(Action::EndSpeech);
            },
            VoiceAgentEvent::TtsSpeech(text) => {
                r.push(Action::Notify(Notice::TtsSpeech(text.clone())));
                r.push(Action::Speak(text));
                r.push(Action::EndSpeech);
            },
            VoiceAgentEvent::Shutdown => {
                r.push(Action::Notify(Notice::Shutdown));
                r.push(Action::Stop);
                self.stopped = true;
            },
        }
        assert(views::of(r@) =~= plan(is_new, e));
        r
    }
}

/// The user can interrupt: whatever has come of an answer, a word of the user has the application
/// told of it, and the speech, the answer and what is waiting to be played dropped. Nothing is
/// spoken or asked for it. No more audio is let through before the speech is cancelled, and the
/// playback is reset last, so that nothing comes after it.
pub proof fn law_user_can_interrupt(l: &mut MainLoop, text: String, r: Vec<Action>)
    requires
        call_ensures(MainLoop::on_event, (l, VoiceAgentEvent::UserBreak(text)), r),
        !old(l)@.stopped,
    ensures
        exists|i: int| 0 <= i < r@.len() && (#[trigger] r@[i]) is CancelLlm,
        exists|i: int, j: int|
            0 <= i < j < r@.len() - 1 && (#[trigger] r@[i]) is DiscardSpeech && (
            #[trigger] r@[j]) is CancelSpeech,
        r@.len() > 0,
        r@.last() is ResetPlayback,
        r@[0] matches Action::Notify(Notice::UserBreak(told)) && told@ == text@,
        forall|i: int|
            0 <= i < r@.len() ==> !((#[trigger] r@[i]) is Speak) && !(r@[i] is AskHandler) && !(r@[i]
                is Stop),
        !final(l)@.stopped,
{
    lemma_views_at(r@);
    assert(r@[1] is DiscardSpeech && r@[2] is CancelLlm && r@[3] is CancelSpeech);
}

/// The views of actions, one by one.
proof fn lemma_views_at(actions: Seq<Action>)
    ensures
        views::of(actions).len() == actions.len(),
        forall|i: int| 0 <= i < actions.len() ==> views::of(actions)[i] == (#[trigger] actions[i])@,
{
}

/// Each action is called for by its events, and by no others.
pub proof fn law_actions_have_their_events(l: &mut MainLoop, event: VoiceAgentEvent, r: Vec<Action>)
    requires
        call_ensures(MainLoop::on_event, (l, event), r),
        !old(l)@.stopped,
    ensures
        ({
            let e = event@;
            let actions = views::of(r@);
            let of_answer = e is LlmResponseChunk || e is LlmResponseDone || e is LlmError;
            &&& actions.contains(ActionView::DiscardSpeech) <==> e is UserBreak
            &&& actions.contains(ActionView::CancelLlm) <==> e is UserBreak
            &&& actions.contains(ActionView::CancelSpeech) <==> e is UserBreak
            &&& actions.contains(ActionView::ResetPlayback) <==> e is UserBreak || (of_answer
                && old(l)@.is_new)
            &&& actions.contains(ActionView::ReconnectSpeech) <==> e is TtsError || e
                is TtsCloseOrEos
            &&& actions.contains(ActionView::ReconnectRecognition) <==> e is SttError || e
                is SttCloseOrEos
            &&& actions.contains(ActionView::EndSpeech) <==> e is TtsSpeech || e is LlmResponseDone
                || e is LlmError
            &&& actions.contains(ActionView::Stop) <==> e is Error || e is Shutdown
            &&& final(l)@.stopped <==> e is Error || e is Shutdown
            &&& actions.no_duplicates()
        }),
{
    let e = event@;
    let actions = views::of(r@);
    assert(actions == plan(old(l)@.is_new, e));
    lemma_actions_of_a_plan(old(l)@.is_new, e);
}

proof fn lemma_actions_of_a_plan(is_new: bool, e: EventView)
    ensures
        ({
            let actions = plan(is_new, e);
            let of_answer = e is LlmResponseChunk || e is LlmResponseDone || e is LlmError;
            &&& actions.contains(ActionView::DiscardSpeech) <==> e is UserBreak
            &&& actions.contains(ActionView::CancelLlm) <==> e is UserBreak
            &&& actions.contains(ActionView::CancelSpeech) <==> e is UserBreak
            &&& actions.contains(ActionView::ResetPlayback) <==> e is UserBreak || (of_answer
                && is_new)
            &&& actions.contains(ActionView::ReconnectSpeech) <==> e is TtsError || e
                is TtsCloseOrEos
            &&& actions.contains(ActionView::ReconnectRecognition) <==> e is SttError || e
                is SttCloseOrEos
            &&& actions.contains(ActionView::EndSpeech) <==> e is TtsSpeech || e is LlmResponseDone
                || e is LlmError
            &&& actions.contains(ActionView::Stop) <==> e is Error || e is Shutdown
            &&& actions.no_duplicates()
        }),
{
    let p = plan(is_new, e);
    match e {
        EventView::UserBreak(_) => {
            assert(p[1] is DiscardSpeech && p[2] is CancelLlm && p[3] is CancelSpeech && p[4]
                is ResetPlayback);
        },
        EventView::TtsSpeech(_) => {
            assert(p[2] is EndSpeech);
        },
        EventView::TtsError(_) => {
            assert(p[1] is ReconnectSpeech);
        },
        EventView::TtsCloseOrEos => {
            assert(p[1] is ReconnectSpeech);
        },
        EventView::SttError(_) => {
            assert(p[1] is ReconnectRecognition);
        },
        EventView::SttCloseOrEos => {
            assert(p[1] is ReconnectRecognition);
        },
        EventView::Error(_) => {
            assert(p[1] is Stop);
        },
        EventView::Shutdown => {
            assert(p[1] is Stop);
        },
        EventView::LlmError(_) => {
            assert(p.last() is EndSpeech);
            assert(is_new ==> p[1] is ResetPlayback);
        },
        EventView::LlmResponseDone(_) => {
            assert(p.last() is EndSpeech);
            assert(is_new ==> p[1] is ResetPlayback);
        },
        EventView::LlmResponseChunk(_) => {
            assert(is_new ==> p[1] is ResetPlayback);
        },
        EventView::UserInput(_) => {},
    }
}

/// What the user said is handed on as it was said, for nothing else and with nothing else to do.
pub proof fn law_input_is_handed_on(l: &mut MainLoop, event: VoiceAgentEvent, r: Vec<Action>)
    requires
        call_ensures(MainLoop::on_event, (l, event), r),
        !old(l)@.stopped,
    ensures
        event matches VoiceAgentEvent::UserInput(input) ==> r@.len() == 1 && (r@[0]
            matches Action::AskHandler(asked) && asked@ == input@),
        !(event is UserInput) ==> forall|i: int|
            0 <= i < r@.len() ==> !((#[trigger] r@[i]) is AskHandler),
{
    lemma_views_at(r@);
}

/// What is to be spoken is spoken as it is: the text of an injected speech, and every piece of an
/// answer that holds anything. The application is told right before, the end of the speech comes
/// last of all, and nothing else is spoken.
pub proof fn law_texts_are_spoken(l: &mut MainLoop, event: VoiceAgentEvent, r: Vec<Action>)
    requires
        call_ensures(MainLoop::on_event, (l, event), r),
        !old(l)@.stopped,
    ensures
        forall|text: Seq<char>| #[trigger]
            views::of(r@).contains(ActionView::Speak(text)) <==> event@ == EventView::TtsSpeech(text)
                || (text.len() > 0 && (event@ == EventView::LlmResponseChunk(text) || event@
                == EventView::LlmResponseDone(text))),
        forall|i: int|
            0 <= i < r@.len() && (#[trigger] r@[i]) is Speak ==> i > 0 && views::of(r@)[i - 1]
                == ActionView::Notify(NoticeView::TtsSpeech(r@[i]->Speak_0@)),
        forall|i: int|
            0 <= i < r@.len() && (#[trigger] r@[i]) is EndSpeech ==> i == r@.len() - 1,
        forall|i: int, j: int|
            0 <= i < r@.len() && 0 <= j < r@.len() && (#[trigger] r@[i]) is Speak && (
            #[trigger] r@[j]) is ResetPlayback ==> j < i,
{
    let is_new = old(l)@.is_new;
    let p = plan(is_new, event@);
    lemma_views_at(r@);
    assert(views::of(r@) == p);
    assert forall|text: Seq<char>| #[trigger]
        views::of(r@).contains(ActionView::Speak(text)) <==> event@ == EventView::TtsSpeech(text) || (
        text.len() > 0 && (event@ == EventView::LlmResponseChunk(text) || event@
            == EventView::LlmResponseDone(text))) by {
        if event@ == EventView::TtsSpeech(text) {
            assert(p[1] == ActionView::Speak(text));
        } else if text.len() > 0 && event@ == EventView::LlmResponseChunk(text) {
            assert(p.last() == ActionView::Speak(text));
        } else if text.len() > 0 && event@ == EventView::LlmResponseDone(text) {
            assert(p[p.len() - 2] == ActionView::Speak(text));
        }
    }
    assert forall|i: int| 0 <= i < r@.len() && (#[trigger] r@[i]) is Speak implies i > 0
        && views::of(r@)[i - 1] == ActionView::Notify(
        NoticeView::TtsSpeech(r@[i]->Speak_0@),
    ) by {
        assert(p[i] == r@[i]@);
        law_speech_is_announced(is_new, event@, i);
    }
    assert forall|i: int|
        0 <= i < r@.len() && (#[trigger] r@[i]) is EndSpeech implies i == r@.len() - 1 by {
        assert(p[i] == r@[i]@);
    }
    assert forall|i: int, j: int|
        0 <= i < r@.len() && 0 <= j < r@.len() && (#[trigger] r@[i]) is Speak && (#[trigger] r@[j])
            is ResetPlayback implies j < i by {
        assert(p[i] == r@[i]@);
        assert(p[j] == r@[j]@);
    }
}

/// The notice that tells the application of an event.
pub open spec fn is_told_of(notice: Notice, event: VoiceAgentEvent) -> bool {
    match (notice, event) {
        (Notice::UserBreak(a), VoiceAgentEvent::UserBreak(b)) => a@ == b@,
        (Notice::TtsSpeech(a), VoiceAgentEvent::TtsSpeech(b)) => a@ == b@,
        (Notice::TtsError(a), VoiceAgentEvent::TtsError(b)) => a@ == b@,
        (Notice::SttError(a), VoiceAgentEvent::SttError(b)) => a@ == b@,
        (Notice::TtsCloseOrEos, VoiceAgentEvent::TtsCloseOrEos) => true,
        (Notice::SttCloseOrEos, VoiceAgentEvent::SttCloseOrEos) => true,
        (Notice::Error(a), VoiceAgentEvent::Error(b)) => a@ == b@,
        (Notice::LlmError(a), VoiceAgentEvent::LlmError(b)) => a@ == b@,
        (Notice::LlmResponseChunk(a), VoiceAgentEvent::LlmResponseChunk(b)) => a@ == b@,
        (Notice::LlmResponseDone(a), VoiceAgentEvent::LlmResponseDone(b)) => a@ == b@,
        (Notice::Shutdown, VoiceAgentEvent::Shutdown) => true,
        _ => false,
    }
}

/// The application is told of every event but what the user said, before anything else is done for
/// it.
pub proof fn law_application_is_told_first(l: &mut MainLoop, event: VoiceAgentEvent, r: Vec<Action>)
    requires
        call_ensures(MainLoop::on_event, (l, event), r),
        !old(l)@.stopped,
        !(event is UserInput),
    ensures
        r@.len() > 0,
        r@[0] matches Action::Notify(notice) && is_told_of(notice, event),
        !(event is LlmResponseChunk || event is LlmResponseDone) ==> forall|i: int|
            0 < i < r@.len() ==> !((#[trigger] r@[i]) is Notify),
{
    lemma_views_at(r@);
}

/// Where the playback is reset for an answer, it is waited for a hundredth of a second right behind
/// it, and nowhere else.
pub proof fn law_reset_is_waited_for(l: &mut MainLoop, event: VoiceAgentEvent, r: Vec<Action>)
    requires
        call_ensures(MainLoop::on_event, (l, event), r),
        !old(l)@.stopped,
    ensures
        forall|i: int|
            0 <= i < r@.len() && (#[trigger] r@[i]) is WaitMs ==> r@[i] == Action::WaitMs(10) && i
                > 0 && r@[i - 1] is ResetPlayback,
        forall|i: int|
            0 <= i < r@.len() && (#[trigger] r@[i]) is ResetPlayback && !(event is UserBreak) ==> i
                + 1 < r@.len() && r@[i + 1] is WaitMs,
{
    let p = plan(old(l)@.is_new, event@);
    lemma_views_at(r@);
    assert(views::of(r@) == p);
    assert forall|i: int| 0 <= i < r@.len() && (#[trigger] r@[i]) is WaitMs implies r@[i]
        == Action::WaitMs(10) && i > 0 && r@[i - 1] is ResetPlayback by {
        assert(p[i] == r@[i]@);
        assert(p[i - 1] == r@[i - 1]@);
    }
    assert forall|i: int|
        0 <= i < r@.len() && (#[trigger] r@[i]) is ResetPlayback && !(event
            is UserBreak) implies i + 1 < r@.len() && r@[i + 1] is WaitMs by {
        assert(p[i] == r@[i]@);
        assert(p[i + 1] == r@[i + 1]@);
    }
}

/// Whether an answer of which nothing has come is awaited behind several events.
pub open spec fn awaits_after(events: Seq<EventView>) -> bool
    decreases events.len(),
{
    if events.len() == 0 {
        false
    } else {
        awaits_answer(awaits_after(events.drop_last()), events.last())
    }
}

/// Whether the last of the inputs, interruptions and pieces of answers in `events` is an input.
pub open spec fn input_is_unanswered(events: Seq<EventView>) -> bool {
    exists|k: int|
        {
            &&& 0 <= k < events.len()
            &&& (#[trigger] events[k]) is UserInput
            &&& forall|j: int|
                k < j < events.len() ==> !((#[trigger] events[j]) is UserBreak) && !(events[j]
                    is LlmResponseChunk) && !(events[j] is LlmResponseDone) && !(events[j]
                    is LlmError)
        }
}

/// What an event makes of a loop that has not ended: an answer is awaited behind an input, and no
/// longer behind an interruption or a piece of an answer; all else leaves it as it was.
pub proof fn law_awaiting_an_answer(l: &mut MainLoop, event: VoiceAgentEvent, r: Vec<Action>)
    requires
        call_ensures(MainLoop::on_event, (l, event), r),
        !old(l)@.stopped,
    ensures
        final(l)@.is_new <==> event is UserInput || (old(l)@.is_new && !(event is UserBreak)
            && !(event is LlmResponseChunk) && !(event is LlmResponseDone) && !(event
            is LlmError)),
{
}

/// The first piece of an answer to an input resets the playback, and no other does: whatever
/// happened before, a reset comes with a piece of an answer exactly where the user has said
/// something that was neither answered nor interrupted since.
pub proof fn law_first_piece_resets(before: Seq<EventView>, piece: EventView)
    requires
        piece is LlmResponseChunk || piece is LlmResponseDone || piece is LlmError,
    ensures
        plan(awaits_after(before), piece).contains(ActionView::ResetPlayback)
            <==> input_is_unanswered(before),
{
    lemma_actions_of_a_plan(awaits_after(before), piece);
    lemma_awaits_after(before);
}

proof fn lemma_awaits_after(events: Seq<EventView>)
    ensures
        awaits_after(events) <==> input_is_unanswered(events),
    decreases events.len(),
{
    if events.len() > 0 {
        let init = events.drop_last();
        let n = events.len() - 1;
        let last = events.last();
        lemma_awaits_after(init);
        assert(last == events[n]);
        if last is UserInput {
            assert(events[n] is UserInput);
        } else if awaits_after(events) {
            let k = choose|k: int|
                {
                    &&& 0 <= k < init.len()
                    &&& (#[trigger] init[k]) is UserInput
                    &&& forall|j: int|
                        k < j < init.len() ==> !((#[trigger] init[j]) is UserBreak) && !(init[j]
                            is LlmResponseChunk) && !(init[j] is LlmResponseDone) && !(init[j]
                            is LlmError)
                };
            assert(events[k] is UserInput);
            assert forall|j: int| k < j < events.len() implies !((#[trigger] events[j]) is UserBreak)
                && !(events[j] is LlmResponseChunk) && !(events[j] is LlmResponseDone) && !(
            events[j] is LlmError) by {
                if j < n {
                    assert(init[j] == events[j]);
                }
            }
        } else if input_is_unanswered(events) {
            let k = choose|k: int|
                {
                    &&& 0 <= k < events.len()
                    &&& (#[trigger] events[k]) is UserInput
                    &&& forall|j: int|
                        k < j < events.len() ==> !((#[trigger] events[j]) is UserBreak) && !(
                        events[j] is LlmResponseChunk) && !(events[j] is LlmResponseDone) && !(
                        events[j] is LlmError)
                };
            assert(k < n);
            assert(init[k] is UserInput);
            assert forall|j: int| k < j < init.len() implies !((#[trigger] init[j]) is UserBreak)
                && !(init[j] is LlmResponseChunk) && !(init[j] is LlmResponseDone) && !(init[j]
                is LlmError) by {
                assert(init[j] == events[j]);
            }
            assert(input_is_unanswered(init));
        }
    }
}

/// A loop that has ended does nothing more, and stays so.
pub proof fn law_ended_loop_does_nothing(l: &mut MainLoop, event: VoiceAgentEvent, r: Vec<Action>)
    requires
        call_ensures(MainLoop::on_event, (l, event), r),
        old(l)@.stopped,
    ensures
        r@.len() == 0,
        final(l)@.stopped,
{
}

/// A loop that begins has not ended, and awaits no answer.
pub proof fn law_loop_begins(l: MainLoop)
    requires
        call_ensures(MainLoop::new, (), l),
    ensures
        !l@.stopped,
        !l@.is_new,
{
}

} // verus!
