//! What an application is told of a conversation.

use vstd::prelude::*;

verus! {

/// What an application is told, where it is not asked.
#[derive(Debug)]
pub enum Notice {
    UserBreak(String),
    TtsSpeech(String),
    TtsError(String),
    SttError(String),
    TtsCloseOrEos,
    SttCloseOrEos,
    Error(String),
    LlmError(String),
    LlmResponseChunk(String),
    LlmResponseDone(String),
    Shutdown,
}

/// The mathematical counterpart of a [`Notice`].
pub enum NoticeView {
    UserBreak(Seq<char>),
    TtsSpeech(Seq<char>),
    TtsError(Seq<char>),
    SttError(Seq<char>),
    TtsCloseOrEos,
    SttCloseOrEos,
    Error(Seq<char>),
    LlmError(Seq<char>),
    LlmResponseChunk(Seq<char>),
    LlmResponseDone(Seq<char>),
    Shutdown,
}

impl View for Notice {
    type V = NoticeView;

    open spec fn view(&self) -> NoticeView {
        match *self {
            Notice::UserBreak(s) => NoticeView::UserBreak(s@),
            Notice::TtsSpeech(s) => NoticeView::TtsSpeech(s@),
            Notice::TtsError(s) => NoticeView::TtsError(s@),
            Notice::SttError(s) => NoticeView::SttError(s@),
            Notice::TtsCloseOrEos => NoticeView::TtsCloseOrEos,
            Notice::SttCloseOrEos => NoticeView::SttCloseOrEos,
            Notice::Error(s) => NoticeView::Error(s@),
            Notice::LlmError(s) => NoticeView::LlmError(s@),
            Notice::LlmResponseChunk(s) => NoticeView::LlmResponseChunk(s@),
            Notice::LlmResponseDone(s) => NoticeView::LlmResponseDone(s@),
            Notice::Shutdown => NoticeView::Shutdown,
        }
    }
}

/// An application's part in a conversation.
pub trait VoiceAgentEventHandler: Send + Sync {
    /// The user finished saying something; the language model is given what comes back.
    fn on_user_input(&self, input: String) -> String;

    /// The user began to speak.
    fn on_user_break(&self, text: String);

    /// Text is about to be spoken.
    fn on_tts_speech(&self, text: String);

    /// Speech synthesis failed.
    fn on_tts_error(&self, error: String);

    /// Speech recognition failed.
    fn on_stt_error(&self, error: String);

    /// The speech synthesis connection ended.
    fn on_tts_close_or_eos(&self);

    /// The speech recognition connection ended.
    fn on_stt_close_or_eos(&self);

    /// A failure ends the conversation.
    fn on_error(&self, error_message: String);

    /// The language model failed.
    fn on_llm_error(&self, error_message: String);

    /// A piece of the language model's answer came.
    fn on_llm_response_chunk(&self, text: String);

    /// The language model's answer is complete.
    fn on_llm_response_done(&self, text: String);

    /// The agent is shutting down.
    fn on_shutdown(&self);
}

/// An application that takes no part.
pub struct VoiceAgentNoOpEventHandler;

impl VoiceAgentEventHandler for VoiceAgentNoOpEventHandler {
    fn on_user_input(&self, input: String) -> (r: String)
        ensures
            r == input,
    {
        input
    }

    fn on_user_break(&self, _text: String) {
    }

    fn on_tts_speech(&self, _text: String) {
    }

    fn on_tts_error(&self, _error: String) {
    }

    fn on_stt_error(&self, _error: String) {
    }

    fn on_tts_close_or_eos(&self) {
    }

    fn on_stt_close_or_eos(&self) {
    }

    fn on_error(&self, _error_message: String) {
    }

    fn on_llm_error(&self, _error_message: String) {
    }

    fn on_llm_response_chunk(&self, _text: String) {
    }

    fn on_llm_response_done(&self, _text: String) {
    }

    fn on_shutdown(&self) {
    }
}

/// Asks the application what the language model is given for what the user said: the result is
/// what its method hands back.
pub fn ask<H: VoiceAgentEventHandler + ?Sized>(handler: &H, input: String) -> (r: String)
    ensures
        call_ensures(H::on_user_input, (handler, input), r),
{
    handler.on_user_input(input)
}

/// Hands a notice to the application, by the method that is meant for it.
pub fn notify<H: VoiceAgentEventHandler + ?Sized>(handler: &H, notice: Notice) -> (r: ())
    ensures
        match notice {
            Notice::UserBreak(text) => call_ensures(H::on_user_break, (handler, text), r),
            Notice::TtsSpeech(text) => call_ensures(H::on_tts_speech, (handler, text), r),
            Notice::TtsError(error) => call_ensures(H::on_tts_error, (handler, error), r),
            Notice::SttError(error) => call_ensures(H::on_stt_error, (handler, error), r),
            Notice::TtsCloseOrEos => call_ensures(H::on_tts_close_or_eos, (handler,), r),
            Notice::SttCloseOrEos => call_ensures(H::on_stt_close_or_eos, (handler,), r),
            Notice::Error(message) => call_ensures(H::on_error, (handler, message), r),
            Notice::LlmError(message) => call_ensures(H::on_llm_error, (handler, message), r),
            Notice::LlmResponseChunk(text) => call_ensures(
                H::on_llm_response_chunk,
                (handler, text),
                r,
            ),
            Notice::LlmResponseDone(text) => call_ensures(
                H::on_llm_response_done,
                (handler, text),
                r,
            ),
            Notice::Shutdown => call_ensures(H::on_shutdown, (handler,), r),
        },
{
    match notice {
        Notice::UserBreak(text) => handler.on_user_break(text),
        Notice::TtsSpeech(text) => handler.on_tts_speech(text),
        Notice::TtsError(error) => handler.on_tts_error(error),
        Notice::SttError(error) => handler.on_stt_error(error),
        Notice::TtsCloseOrEos => handler.on_tts_close_or_eos(),
        Notice::SttCloseOrEos => handler.on_stt_close_or_eos(),
        Notice::Error(message) => handler.on_error(message),
        Notice::LlmError(message) => handler.on_llm_error(message),
        Notice::LlmResponseChunk(text) => handler.on_llm_response_chunk(text),
        Notice::LlmResponseDone(text) => handler.on_llm_response_done(text),
        Notice::Shutdown => handler.on_shutdown(),
    }
}

/// The application is told by the method that is meant for it, and with what there is to tell, as
/// it is.
pub proof fn law_application_is_told<H: VoiceAgentEventHandler + ?Sized>(
    handler: &H,
    text: String,
)
    ensures
        call_ensures(notify::<H>, (handler, Notice::UserBreak(text)), ()) ==> call_ensures(
            H::on_user_break,
            (handler, text),
            (),
        ),
        call_ensures(notify::<H>, (handler, Notice::TtsSpeech(text)), ()) ==> call_ensures(
            H::on_tts_speech,
            (handler, text),
            (),
        ),
        call_ensures(notify::<H>, (handler, Notice::TtsError(text)), ()) ==> call_ensures(
            H::on_tts_error,
            (handler, text),
            (),
        ),
        call_ensures(notify::<H>, (handler, Notice::SttError(text)), ()) ==> call_ensures(
            H::on_stt_error,
            (handler, text),
            (),
        ),
        call_ensures(notify::<H>, (handler, Notice::TtsCloseOrEos), ()) ==> call_ensures(
            H::on_tts_close_or_eos,
            (handler,),
            (),
        ),
        call_ensures(notify::<H>, (handler, Notice::SttCloseOrEos), ()) ==> call_ensures(
            H::on_stt_close_or_eos,
            (handler,),
            (),
        ),
        call_ensures(notify::<H>, (handler, Notice::Error(text)), ()) ==> call_ensures(
            H::on_error,
            (handler, text),
            (),
        ),
        call_ensures(notify::<H>, (handler, Notice::LlmError(text)), ()) ==> call_ensures(
            H::on_llm_error,
            (handler, text),
            (),
        ),
        call_ensures(notify::<H>, (handler, Notice::LlmResponseChunk(text)), ()) ==> call_ensures(
            H::on_llm_response_chunk,
            (handler, text),
            (),
        ),
        call_ensures(notify::<H>, (handler, Notice::LlmResponseDone(text)), ()) ==> call_ensures(
            H::on_llm_response_done,
            (handler, text),
            (),
        ),
        call_ensures(notify::<H>, (handler, Notice::Shutdown), ()) ==> call_ensures(
            H::on_shutdown,
            (handler,),
            (),
        ),
{
}

/// What the application makes of the user's input is what is asked; one that takes no part leaves
/// it as it is.
pub proof fn law_application_is_asked<H: VoiceAgentEventHandler + ?Sized>(
    handler: &H,
    input: String,
    r: String,
    nobody: &VoiceAgentNoOpEventHandler,
    s: String,
)
    requires
        call_ensures(ask::<H>, (handler, input), r),
        call_ensures(ask::<VoiceAgentNoOpEventHandler>, (nobody, input), s),
    ensures
        call_ensures(H::on_user_input, (handler, input), r),
        s@ == input@,
{
}

} // verus!
