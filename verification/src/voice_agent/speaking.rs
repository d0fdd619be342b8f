//! What speech synthesis reports.

use vstd::prelude::*;
use vstd::string::*;

use crate::encoding::from_base64;
use crate::messages::{AudioPlaybackMessage, PlaybackView};
use crate::pcm::bytes_to_samples;
use crate::voice_agent::event::{EventView, VoiceAgentEvent};
use crate::{encoding, pcm, views};

verus! {

/// An event of speech synthesis.
#[derive(Debug)]
pub enum TtsEvent {
    /// A part of the speech, as base64.
    Audio { audio: String },
    /// Synthesis is ready.
    Ready,
    /// A text that is being spoken.
    TextEcho { text: String },
    /// Synthesis failed.
    Error { message: String, code: String },
    /// Nothing more is spoken.
    EndOfStream,
    /// The connection was closed.
    Close,
    Ping,
    Pong,
    Frame,
}

/// What came of waiting for an event of speech synthesis.
#[derive(Debug)]
pub enum TtsInput {
    Event(TtsEvent),
    /// There is no connection.
    NotConnected,
    /// Waiting failed.
    Failed(String),
}

/// What an event of speech synthesis calls for.
#[derive(Debug)]
pub enum SpeakStep {
    /// Send a message to the playback.
    Playback(AudioPlaybackMessage),
    /// Take the connection to be in need of renewal.
    SetReconnecting,
    /// Send an event to the main loop.
    Send(VoiceAgentEvent),
}

/// The mathematical counterpart of a [`SpeakStep`].
pub enum SpeakStepView {
    Playback(PlaybackView),
    SetReconnecting,
    Send(EventView),
}

impl View for SpeakStep {
    type V = SpeakStepView;

    open spec fn view(&self) -> SpeakStepView {
        match *self {
            SpeakStep::Playback(m) => SpeakStepView::Playback(m@),
            SpeakStep::SetReconnecting => SpeakStepView::SetReconnecting,
            SpeakStep::Send(e) => SpeakStepView::Send(e@),
        }
    }
}

/// The steps that a failure calls for.
pub open spec fn failure(event: EventView) -> Seq<SpeakStepView> {
    seq![SpeakStepView::SetReconnecting, SpeakStepView::Send(event)]
}

/// What an event calls for; `discarding` tells whether audio is let through. Audio that is not
/// base64 is passed over.
pub open spec fn steps(input: TtsInput, discarding: bool) -> Seq<SpeakStepView> {
    match input {
        TtsInput::Event(TtsEvent::Audio { audio }) => if !discarding && encoding::is_base64(
            audio@,
        ) {
            seq![
                SpeakStepView::Playback(
                    PlaybackView::Play(pcm::samples(encoding::decoded(audio@))),
                ),
            ]
        } else {
            seq![]
        },
        TtsInput::Event(TtsEvent::Error { message, code: _ }) => failure(
            EventView::TtsError(message@),
        ),
        TtsInput::Event(TtsEvent::EndOfStream) => failure(EventView::TtsCloseOrEos),
        TtsInput::Event(TtsEvent::Close) => failure(EventView::TtsCloseOrEos),
        TtsInput::Event(_) => seq![],
        TtsInput::NotConnected => failure(EventView::TtsError("TTS client not connected"@)),
        TtsInput::Failed(e) => failure(EventView::TtsError(e@)),
    }
}

/// Samples that are sent as the base64 text of their bytes are played as they were.
pub proof fn law_audio_is_played_as_sent(audio: String, samples: Seq<i16>)
    requires
        audio@ == encoding::encoded(pcm::bytes(samples)),
    ensures
        steps(TtsInput::Event(TtsEvent::Audio { audio }), false) == seq![
            SpeakStepView::Playback(PlaybackView::Play(samples)),
        ],
{
    encoding::law_decoding_undoes_encoding(pcm::bytes(samples));
    pcm::law_samples_survive(samples);
}

/// Takes in what came of waiting for an event of speech synthesis.
pub fn on_event(input: TtsInput, discarding: bool) -> (r: Vec<SpeakStep>)
    ensures
        views::of(r@) == steps(input, discarding),
{
    broadcast use views::group_views;

    let mut r: Vec<SpeakStep> = Vec::new();
    match &input {
        TtsInput::Event(TtsEvent::Audio { audio }) => {
            if !discarding {
                if let Ok(bytes) = from_base64(audio.as_str()) {
                    let samples = bytes_to_samples(bytes.as_slice());
                    r.push(SpeakStep::Playback(AudioPlaybackMessage::Play(samples)));
                }
            }
        },
        TtsInput::Event(TtsEvent::Error { message, code: _ }) => {
            r.push(SpeakStep::SetReconnecting);
            r.push(SpeakStep::Send(VoiceAgentEvent::TtsError(message.clone())));
        },
        TtsInput::Event(TtsEvent::EndOfStream) => {
            r.push(SpeakStep::SetReconnecting);
            r.push(SpeakStep::Send(VoiceAgentEvent::TtsCloseOrEos));
        },
        TtsInput::Event(TtsEvent::Close) => {
            r.push(SpeakStep::SetReconnecting);
            r.push(SpeakStep::Send(VoiceAgentEvent::TtsCloseOrEos));
        },
        TtsInput::Event(_) => {},
        TtsInput::NotConnected => {
            r.push(SpeakStep::SetReconnecting);
            r.push(
                SpeakStep::Send(VoiceAgentEvent::TtsError("TTS client not connected".to_owned())),
            );
        },
        TtsInput::Failed(e) => {
            r.push(SpeakStep::SetReconnecting);
            r.push(SpeakStep::Send(VoiceAgentEvent::TtsError(e.clone())));
        },
    }
    assert(views::of(r@) =~= steps(input, discarding));
    r
}

/// The views of steps, one by one.
proof fn lemma_steps_at(list: Seq<SpeakStep>)
    ensures
        views::of(list).len() == list.len(),
        forall|i: int| 0 <= i < list.len() ==> views::of(list)[i] == (#[trigger] list[i])@,
{
}

/// Speech is played as it was sent: while audio is let through, the samples whose bytes were sent
/// as base64 are all played, in order and at once, whatever their number, and a byte too many at
/// the end changes nothing. While it is not, and
/// where the text is no base64, nothing is played.
pub proof fn law_speech_is_played(
    audio: String,
    samples: Seq<i16>,
    extra: u8,
    discarding: bool,
    r: Vec<SpeakStep>,
)
    requires
        call_ensures(on_event, (TtsInput::Event(TtsEvent::Audio { audio }), discarding), r),
    ensures
        !discarding && audio@ == encoding::encoded(pcm::bytes(samples)) ==> r@.len() == 1 && (r@[0]
            matches SpeakStep::Playback(AudioPlaybackMessage::Play(played)) && played@ == samples),
        !discarding && audio@ == encoding::encoded(pcm::bytes(samples).push(extra)) ==> r@.len() == 1
            && (r@[0] matches SpeakStep::Playback(AudioPlaybackMessage::Play(played)) && played@
            == samples),
        discarding || !encoding::is_base64(audio@) ==> r@.len() == 0,
{
    lemma_steps_at(r@);
    if !discarding && audio@ == encoding::encoded(pcm::bytes(samples)) {
        law_audio_is_played_as_sent(audio, samples);
    }
    let longer = pcm::bytes(samples).push(extra);
    encoding::law_decoding_undoes_encoding(longer);
    pcm::law_samples_survive(samples);
    assert(pcm::samples(longer) =~= pcm::samples(pcm::bytes(samples)));
}

/// Whether an input reports a failure or the end of synthesis.
pub open spec fn is_failure(input: TtsInput) -> bool {
    match input {
        TtsInput::Event(TtsEvent::Error { message: _, code: _ }) => true,
        TtsInput::Event(TtsEvent::EndOfStream) => true,
        TtsInput::Event(TtsEvent::Close) => true,
        TtsInput::Event(_) => false,
        TtsInput::NotConnected => true,
        TtsInput::Failed(_) => true,
    }
}

/// A failure has the connection taken to be in need of renewal, and then the main loop told: of the
/// end as such, and of an error with what was reported of it. Whether audio is let through does not
/// matter for it. Nothing else has either done, and only audio is played.
pub proof fn law_failures_are_reported(input: TtsInput, discarding: bool, r: Vec<SpeakStep>)
    requires
        call_ensures(on_event, (input, discarding), r),
    ensures
        is_failure(input) ==> r@.len() == 2 && r@[0] is SetReconnecting && match input {
            TtsInput::Event(TtsEvent::Error { message, code: _ }) => r@[1]
                matches SpeakStep::Send(VoiceAgentEvent::TtsError(report)) && report@ == message@,
            TtsInput::Failed(e) => r@[1] matches SpeakStep::Send(VoiceAgentEvent::TtsError(report))
                && report@ == e@,
            TtsInput::NotConnected => r@[1] matches SpeakStep::Send(VoiceAgentEvent::TtsError(_)),
            _ => r@[1] matches SpeakStep::Send(VoiceAgentEvent::TtsCloseOrEos),
        },
        !is_failure(input) ==> forall|i: int|
            0 <= i < r@.len() ==> (#[trigger] r@[i]) is Playback,
        !(input matches TtsInput::Event(TtsEvent::Audio { audio: _ })) ==> forall|i: int|
            0 <= i < r@.len() ==> !((#[trigger] r@[i]) is Playback),
{
    lemma_steps_at(r@);
}

} // verus!
