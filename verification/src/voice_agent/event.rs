//! What the tasks of an agent tell its main loop.

use vstd::prelude::*;

verus! {

/// An event on the way to the main loop.
#[derive(Debug, PartialEq, Eq)]
pub enum VoiceAgentEvent {
    /// The user finished saying something.
    UserInput(String),
    /// The user began to speak while the agent may be answering.
    UserBreak(String),
    /// Text to be spoken that did not come from the language model.
    TtsSpeech(String),
    /// Speech synthesis failed.
    TtsError(String),
    /// Speech recognition failed.
    SttError(String),
    /// The speech synthesis connection ended.
    TtsCloseOrEos,
    /// The speech recognition connection ended.
    SttCloseOrEos,
    /// The language model failed.
    LlmError(String),
    /// A failure that ends the conversation.
    Error(String),
    /// A piece of the language model's answer.
    LlmResponseChunk(String),
    /// The end of the language model's answer, with what is left of its text.
    LlmResponseDone(String),
    /// The agent is shutting down.
    Shutdown,
}

/// The mathematical counterpart of a [`VoiceAgentEvent`].
pub enum EventView {
    UserInput(Seq<char>),
    UserBreak(Seq<char>),
    TtsSpeech(Seq<char>),
    TtsError(Seq<char>),
    SttError(Seq<char>),
    TtsCloseOrEos,
    SttCloseOrEos,
    LlmError(Seq<char>),
    Error(Seq<char>),
    LlmResponseChunk(Seq<char>),
    LlmResponseDone(Seq<char>),
    Shutdown,
}

impl View for VoiceAgentEvent {
    type V = EventView;

    open spec fn view(&self) -> EventView {
        match *self {
            VoiceAgentEvent::UserInput(s) => EventView::UserInput(s@),
            VoiceAgentEvent::UserBreak(s) => EventView::UserBreak(s@),
            VoiceAgentEvent::TtsSpeech(s) => EventView::TtsSpeech(s@),
            VoiceAgentEvent::TtsError(s) => EventView::TtsError(s@),
            VoiceAgentEvent::SttError(s) => EventView::SttError(s@),
            VoiceAgentEvent::TtsCloseOrEos => EventView::TtsCloseOrEos,
            VoiceAgentEvent::SttCloseOrEos => EventView::SttCloseOrEos,
            VoiceAgentEvent::LlmError(s) => EventView::LlmError(s@),
            VoiceAgentEvent::Error(s) => EventView::Error(s@),
            VoiceAgentEvent::LlmResponseChunk(s) => EventView::LlmResponseChunk(s@),
            VoiceAgentEvent::LlmResponseDone(s) => EventView::LlmResponseDone(s@),
            VoiceAgentEvent::Shutdown => EventView::Shutdown,
        }
    }
}

} // verus!
