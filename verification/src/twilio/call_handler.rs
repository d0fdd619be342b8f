//! The state of a call, and what the events of its media stream call for.

use vstd::prelude::*;
use vstd::string::*;

use crate::encoding::from_base64;
use crate::messages::AudioCaptureMessage;
use crate::text::text_eq;
use crate::twilio::audio;
use crate::twilio::audio::{boost, TtsDownsampler, TWILIO_FRAME_BYTES};
use crate::twilio::twilio::{TwilioMediaEvent, TwilioStartEvent};
use crate::ulaw::expand;
use crate::{encoding, framing, ulaw, views};

verus! {

/// What the caller hears first.
pub const GREETING: &'static str = "Hello! How can I help you today?";

/// The string that a JSON object holds under a key: nothing where the text is no JSON object, and
/// no string where there is none under the key. It is the result of reading the text with
/// `serde_json::from_str` into a map from strings to `serde_json::Value`s, and of `as_str` on the
/// value under the key.
pub uninterp spec fn json_string_member(text: Seq<char>, key: Seq<char>) -> Option<
    Option<Seq<char>>,
>;

/// The view of an optional optional text.
pub open spec fn member_view(member: Option<Option<String>>) -> Option<Option<Seq<char>>> {
    match member {
        Some(string) => Some(views::opt(string)),
        None => None,
    }
}

/// `serde_json::from_str`, into a map from strings to `serde_json::Value`s, of which the value
/// under `key` is handed out where it is a string. Which texts are read, and to which values, is
/// left to the name.
#[verifier::external_body]
fn read_string_member(text: &str, key: &str) -> (r: Option<Option<String>>)
    ensures
        member_view(r) == json_string_member(text@, key@),
{
    match serde_json::from_str::<std::collections::HashMap<String, serde_json::Value>>(text) {
        Ok(members) => Some(members.get(key).and_then(|v| v.as_str()).map(|s| s.to_owned())),
        Err(_) => None,
    }
}

/// What a text of the media stream calls for.
#[derive(Debug, Clone, Copy, PartialEq, Eq, Structural)]
pub enum TextStep {
    /// Nothing.
    Ignore,
    /// Read it as the start of the stream.
    ReadStart,
    /// Read it as audio of the caller.
    ReadMedia,
    /// Close the connection.
    Close,
}

/// What a text calls for, by the string that it holds under the key `event`.
pub open spec fn text_step(event: Option<Option<Seq<char>>>) -> TextStep {
    match event {
        Some(Some(name)) => if name == "start"@ {
            TextStep::ReadStart
        } else if name == "media"@ {
            TextStep::ReadMedia
        } else if name == "stop"@ {
            TextStep::Close
        } else {
            TextStep::Ignore
        },
        _ => TextStep::Ignore,
    }
}

/// Decides what a text calls for, by the string that it holds under the key `event`.
pub fn step_of_event(event: &Option<Option<String>>) -> (r: TextStep)
    ensures
        r == text_step(member_view(*event)),
{
    match event {
        Some(Some(name)) => {
            let name = name.as_str();
            if text_eq(name, "start") {
                TextStep::ReadStart
            } else if text_eq(name, "media") {
                TextStep::ReadMedia
            } else if text_eq(name, "stop") {
                TextStep::Close
            } else {
                TextStep::Ignore
            }
        },
        _ => TextStep::Ignore,
    }
}

/// Decides what a text of the media stream calls for.
pub fn handle_twilio_text_message(text: &str) -> (r: TextStep)
    ensures
        r == text_step(json_string_member(text@, "event"@)),
{
    let event = read_string_member(text, "event");
    step_of_event(&event)
}

/// What to do next when the media stream of a call starts.
#[derive(Debug)]
pub enum CallStartStep {
    /// Go on with the call.
    Continue,
    /// Make the resamplers.
    MakeResamplers,
    /// Start the agent.
    StartAgent,
    /// Close the connection.
    Close(String),
    /// Let the agent speak first.
    Greet(String),
}

/// The mathematical counterpart of a [`CallStartStep`].
pub enum CallStartView {
    Continue,
    MakeResamplers,
    StartAgent,
    Close(Seq<char>),
    Greet(Seq<char>),
}

impl View for CallStartStep {
    type V = CallStartView;

    open spec fn view(&self) -> CallStartView {
        match *self {
            CallStartStep::Continue => CallStartView::Continue,
            CallStartStep::MakeResamplers => CallStartView::MakeResamplers,
            CallStartStep::StartAgent => CallStartView::StartAgent,
            CallStartStep::Close(error) => CallStartView::Close(error@),
            CallStartStep::Greet(text) => CallStartView::Greet(text@),
        }
    }
}

/// The mathematical counterpart of a [`CallContext`].
pub struct CallView {
    /// The name of the stream, once it has one.
    pub stream_sid: Seq<char>,
    /// The name of the call, once it has one.
    pub call_sid: Seq<char>,
    /// Whether the agent was started.
    pub agent_started: bool,
    /// Whether the start of the agent was tried.
    pub start_tried: bool,
    /// Whether the caller's audio can be brought to the agent's rate.
    pub can_upsample: bool,
    /// What is held back of the speech to the caller, once speech can be brought to the
    /// telephone's rate.
    pub held: Option<Seq<u8>>,
    /// Whether the call is ending.
    pub stopping: bool,
}

impl CallView {
    /// The call under the names that the start of its stream gives.
    pub open spec fn named(self, event: TwilioStartEvent) -> CallView {
        CallView { stream_sid: event.stream_sid@, call_sid: event.start.call_sid@, ..self }
    }

    /// What is to be done next when the stream starts: `event` is its start where it could be
    /// read, `resamplers` what came of making them, first the one for the caller's audio, then the
    /// one for speech, and `agent` what came of starting the agent.
    pub open spec fn start_step(
        self,
        event: Option<TwilioStartEvent>,
        resamplers: Option<(Result<(), String>, Result<(), String>)>,
        agent: Option<Result<(), String>>,
    ) -> CallStartView {
        match (event, resamplers) {
            (None, _) => CallStartView::Continue,
            (Some(_), None) => CallStartView::MakeResamplers,
            (Some(_), Some((Err(e), _))) => CallStartView::Close(
                "Failed to create audio resampler: "@ + e@,
            ),
            (Some(_), Some((Ok(()), Err(e)))) => CallStartView::Close(
                "Failed to create TTS downsampler: "@ + e@,
            ),
            (Some(_), Some((Ok(()), Ok(())))) => match agent {
                None => if self.start_tried {
                    CallStartView::Continue
                } else {
                    CallStartView::StartAgent
                },
                Some(Err(e)) => CallStartView::Close(e@),
                Some(Ok(())) => CallStartView::Greet(GREETING@),
            },
        }
    }

    /// The call then.
    pub open spec fn after_start_step(
        self,
        event: Option<TwilioStartEvent>,
        resamplers: Option<(Result<(), String>, Result<(), String>)>,
        agent: Option<Result<(), String>>,
    ) -> CallView {
        match (event, resamplers) {
            (None, _) => self,
            (Some(e), None) => self.named(e),
            (Some(e), Some((Err(_), _))) => self.named(e),
            (Some(e), Some((Ok(()), Err(_)))) => CallView { can_upsample: true, ..self.named(e) },
            (Some(e), Some((Ok(()), Ok(())))) => match agent {
                None => CallView {
                    can_upsample: true,
                    held: Some(seq![]),
                    start_tried: true,
                    ..self.named(e)
                },
                Some(Err(_)) => self.named(e),
                Some(Ok(())) => CallView { agent_started: true, ..self.named(e) },
            },
        }
    }

    /// Whether audio of the caller is handed on to the agent.
    pub open spec fn accepts(self, codes: Seq<u8>) -> bool {
        self.agent_started && self.can_upsample && codes.len() > 0
    }

    /// The frames that speech gives.
    pub open spec fn frames(self, samples_8k: Seq<i16>) -> Seq<Seq<u8>> {
        match self.held {
            Some(held) => framing::frames(
                held + audio::codes(samples_8k),
                TWILIO_FRAME_BYTES as nat,
            ),
            None => seq![],
        }
    }

    /// The call after speech was cut into frames.
    pub open spec fn after_speech(self, samples_8k: Seq<i16>) -> CallView {
        CallView {
            held: match self.held {
                Some(held) => Some(
                    framing::rest(held + audio::codes(samples_8k), TWILIO_FRAME_BYTES as nat),
                ),
                None => None,
            },
            ..self
        }
    }
}

/// The start of a stream itself, where it could be read.
pub open spec fn event_of(event: Option<&TwilioStartEvent>) -> Option<TwilioStartEvent> {
    match event {
        Some(e) => Some(*e),
        None => None,
    }
}

/// Whether making the resamplers failed.
pub open spec fn resamplers_failed(
    resamplers: Option<(Result<(), String>, Result<(), String>)>,
) -> bool {
    resamplers is Some && ((resamplers->0).0 is Err || (resamplers->0).1 is Err)
}

/// A text ends the call if and only if it is the end of the stream, or a readable start of it for
/// which making the resamplers failed or, with the resamplers made, starting the agent failed.
/// `name` is what the text holds under the key `event`.
pub proof fn law_what_ends_a_call(
    call: CallView,
    name: Option<Option<Seq<char>>>,
    event: Option<TwilioStartEvent>,
    resamplers: Option<(Result<(), String>, Result<(), String>)>,
    agent: Option<Result<(), String>>,
)
    ensures
        ({
            let ends = text_step(name) == TextStep::Close || (text_step(name)
                == TextStep::ReadStart && call.start_step(event, resamplers, agent) is Close);
            ends <==> name == Some(Some("stop"@)) || (name == Some(Some("start"@)) && event is Some
                && (resamplers_failed(resamplers) || (resamplers is Some && agent is Some
                && agent->0 is Err)))
        }),
{
    reveal_strlit("start");
    reveal_strlit("media");
    reveal_strlit("stop");
    assert("start"@.len() == 5 && "media"@.len() == 5 && "stop"@.len() == 4);
    assert("start"@[0] == 's' && "media"@[0] == 'm');
}

/// The start of a call takes its course: the resamplers are made, then the agent is started, then
/// it greets the caller. A start of the stream that comes again starts no second agent.
pub proof fn law_call_starts_once(call: CallView, event: TwilioStartEvent, again: TwilioStartEvent)
    requires
        !call.start_tried,
    ensures
        ({
            let ok: Result<(), String> = Ok(());
            let first = call.after_start_step(Some(event), None, None);
            let second = first.after_start_step(Some(event), Some((ok, ok)), None);
            let third = second.after_start_step(Some(event), Some((ok, ok)), Some(ok));
            &&& call.start_step(Some(event), None, None) == CallStartView::MakeResamplers
            &&& first.start_step(Some(event), Some((ok, ok)), None) == CallStartView::StartAgent
            &&& second.start_step(Some(event), Some((ok, ok)), Some(ok)) == CallStartView::Greet(
                GREETING@,
            )
            &&& third == (CallView {
                can_upsample: true,
                held: Some(seq![]),
                start_tried: true,
                agent_started: true,
                ..call.named(event)
            })
            &&& third.start_step(Some(again), Some((ok, ok)), None) == CallStartView::Continue
        }),
{
}

/// The samples that codes stand for.
pub open spec fn samples_of(codes: Seq<u8>) -> Seq<i16> {
    Seq::new(codes.len(), |i: int| ulaw::expanded(codes[i]) as i16)
}

/// The state of a call.
pub struct CallContext {
    stream_sid: String,
    call_sid: String,
    agent_started: bool,
    start_tried: bool,
    can_upsample: bool,
    tts_downsampler: Option<TtsDownsampler>,
    stopping: bool,
}

impl View for CallContext {
    type V = CallView;

    closed spec fn view(&self) -> CallView {
        CallView {
            stream_sid: self.stream_sid@,
            call_sid: self.call_sid@,
            agent_started: self.agent_started,
            start_tried: self.start_tried,
            can_upsample: self.can_upsample,
            held: views::opt(self.tts_downsampler),
            stopping: self.stopping,
        }
    }
}

impl CallContext {
    /// A call that comes in.
    pub fn new() -> (r: Self)
        ensures
            r@ == (CallView {
                stream_sid: seq![],
                call_sid: seq![],
                agent_started: false,
                start_tried: false,
                can_upsample: false,
                held: None,
                stopping: false,
            }),
    {
        let r = CallContext {
            stream_sid: String::new(),
            call_sid: String::new(),
            agent_started: false,
            start_tried: false,
            can_upsample: false,
            tts_downsampler: None,
            stopping: false,
        };
        assert(r@.stream_sid =~= seq![]);
        assert(r@.call_sid =~= seq![]);
        r
    }

    /// The name of the stream.
    pub fn get_stream_sid(&self) -> (r: String)
        ensures
            r@ == self@.stream_sid,
    {
        self.stream_sid.clone()
    }

    /// Names the stream.
    pub fn set_stream_sid(&mut self, sid: String)
        ensures
            final(self)@ == (CallView { stream_sid: sid@, ..old(self)@ }),
    {
        self.stream_sid = sid;
    }

    /// The name of the call.
    pub fn get_call_sid(&self) -> (r: String)
        ensures
            r@ == self@.call_sid,
    {
        self.call_sid.clone()
    }

    /// Names the call.
    pub fn set_call_sid(&mut self, sid: String)
        ensures
            final(self)@ == (CallView { call_sid: sid@, ..old(self)@ }),
    {
        self.call_sid = sid;
    }

    /// Whether the agent was started.
    pub fn is_agent_started(&self) -> (r: bool)
        ensures
            r == self@.agent_started,
    {
        self.agent_started
    }

    /// Whether the call is ending.
    pub fn is_stopping(&self) -> (r: bool)
        ensures
            r == self@.stopping,
    {
        self.stopping
    }

    /// Ends the call.
    pub fn shutdown(&mut self)
        ensures
            final(self)@ == (CallView { stopping: true, ..old(self)@ }),
    {
        self.stopping = true;
    }

    /// Takes in the start of the stream, where it could be read, and tells whether the resamplers
    /// are to be made.
    pub fn on_start(&mut self, event: Option<&TwilioStartEvent>) -> (r: bool)
        ensures
            r == event is Some,
            final(self)@ == match event {
                Some(e) => old(self)@.named(*e),
                None => old(self)@,
            },
    {
        match event {
            Some(e) => {
                self.set_stream_sid(e.stream_sid.clone());
                self.set_call_sid(e.start.call_sid.clone());
                true
            },
            None => false,
        }
    }

    /// Takes in what came of making the resamplers: first the one for the caller's audio, then
    /// the one for speech, which starts with nothing held back.
    pub fn init_resamplers(
        &mut self,
        upsampler: Result<(), String>,
        downsampler: Result<(), String>,
    ) -> (r: Result<(), String>)
        ensures
            match upsampler {
                Err(e) => {
                    &&& r is Err
                    &&& r->Err_0@ == "Failed to create audio resampler: "@ + e@
                    &&& final(self)@ == old(self)@
                },
                Ok(()) => match downsampler {
                    Err(e) => {
                        &&& r is Err
                        &&& r->Err_0@ == "Failed to create TTS downsampler: "@ + e@
                        &&& final(self)@ == (CallView { can_upsample: true, ..old(self)@ })
                    },
                    Ok(()) => {
                        &&& r is Ok
                        &&& final(self)@ == (CallView {
                            can_upsample: true,
                            held: Some(seq![]),
                            ..old(self)@
                        })
                    },
                },
            },
    {
        match upsampler {
            Err(e) => {
                let mut message = "Failed to create audio resampler: ".to_owned();
                message.append(e.as_str());
                Err(message)
            },
            Ok(()) => {
                self.can_upsample = true;
                match downsampler {
                    Err(e) => {
                        let mut message = "Failed to create TTS downsampler: ".to_owned();
                        message.append(e.as_str());
                        Err(message)
                    },
                    Ok(()) => {
                        self.tts_downsampler = Some(TtsDownsampler::new());
                        assert(self@.held->0 =~= seq![]);
                        Ok(())
                    },
                }
            },
        }
    }

    /// Tells whether the agent is to be started: it is tried once in a call.
    pub fn begin_agent(&mut self) -> (r: bool)
        ensures
            r == !old(self)@.start_tried,
            final(self)@ == (CallView { start_tried: true, ..old(self)@ }),
    {
        let first = !self.start_tried;
        self.start_tried = true;
        first
    }

    /// Takes in what came of the start of the agent, and hands out what it is to say first.
    pub fn start_agent(&mut self, started: Result<(), String>) -> (r: Result<String, String>)
        ensures
            match started {
                Ok(()) => {
                    &&& r is Ok
                    &&& r->Ok_0@ == GREETING@
                    &&& final(self)@ == (CallView { agent_started: true, ..old(self)@ })
                },
                Err(e) => r == Err::<String, String>(e) && final(self)@ == old(self)@,
            },
    {
        match started {
            Ok(()) => {
                self.agent_started = true;
                Ok(GREETING.to_owned())
            },
            Err(e) => Err(e),
        }
    }

    /// Says what to do next when the stream starts, given its start where it could be read, and
    /// what came of the resamplers and of the agent so far.
    pub fn start_step(
        &mut self,
        event: Option<&TwilioStartEvent>,
        resamplers: Option<(Result<(), String>, Result<(), String>)>,
        agent: Option<Result<(), String>>,
    ) -> (r: CallStartStep)
        ensures
            r@ == old(self)@.start_step(event_of(event), resamplers, agent),
            final(self)@ == old(self)@.after_start_step(event_of(event), resamplers, agent),
    {
        if !self.on_start(event) {
            return CallStartStep::Continue;
        }
        let (upsampler, downsampler) = match resamplers {
            None => {
                return CallStartStep::MakeResamplers;
            },
            Some(made) => made,
        };
        let failed = upsampler.is_err() || downsampler.is_err();
        if failed || agent.is_none() {
            if let Err(error) = self.init_resamplers(upsampler, downsampler) {
                return CallStartStep::Close(error);
            }
        }
        match agent {
            None => {
                if self.begin_agent() {
                    CallStartStep::StartAgent
                } else {
                    CallStartStep::Continue
                }
            },
            Some(started) => match self.start_agent(started) {
                Ok(greeting) => CallStartStep::Greet(greeting),
                Err(error) => CallStartStep::Close(error),
            },
        }
    }

    /// Takes in the caller's audio, where it could be read: hands out its samples, to be brought
    /// to the agent's rate.
    pub fn on_media(&self, event: Option<&TwilioMediaEvent>) -> (r: Option<Vec<i16>>)
        ensures
            match r {
                Some(samples) => {
                    &&& event is Some
                    &&& encoding::is_base64(event->0.media.payload@)
                    &&& self@.accepts(encoding::decoded(event->0.media.payload@))
                    &&& samples@ == samples_of(encoding::decoded(event->0.media.payload@))
                },
                None => event is None || !encoding::is_base64(event->0.media.payload@)
                    || !self@.accepts(encoding::decoded(event->0.media.payload@)),
            },
    {
        match event {
            Some(e) => match from_base64(e.media.payload.as_str()) {
                Ok(bytes) => self.process_incoming_media(bytes.as_slice()),
                Err(_) => None,
            },
            None => None,
        }
    }

    /// Takes in the caller's audio: hands out its samples, to be brought to the agent's rate.
    /// Before the agent was started the audio is dropped.
    pub fn process_incoming_media(&self, ulaw_bytes: &[u8]) -> (r: Option<Vec<i16>>)
        ensures
            match r {
                Some(samples) => self@.accepts(ulaw_bytes@) && samples@ == samples_of(ulaw_bytes@),
                None => !self@.accepts(ulaw_bytes@),
            },
    {
        if !self.agent_started || !self.can_upsample || ulaw_bytes.len() == 0 {
            return None;
        }
        let samples = expand(ulaw_bytes);
        assert(samples@ =~= samples_of(ulaw_bytes@));
        Some(samples)
    }

    /// The caller's audio for the agent, once it was brought to the agent's rate.
    pub fn forward_media(samples_24k: &[i16]) -> (r: Option<AudioCaptureMessage>)
        ensures
            match r {
                Some(AudioCaptureMessage::Chunk(boosted)) => {
                    &&& samples_24k@.len() > 0
                    &&& boosted@.len() == samples_24k@.len()
                    &&& forall|i: int|
                        0 <= i < boosted@.len() ==> #[trigger] boosted@[i] == audio::doubled(
                            samples_24k@[i],
                        )
                },
                None => samples_24k@.len() == 0,
            },
    {
        if samples_24k.len() == 0 {
            None
        } else {
            Some(AudioCaptureMessage::Chunk(boost(samples_24k)))
        }
    }

    /// Takes in speech that was brought to the telephone's rate, and hands out the frames that it
    /// fills.
    pub fn process_outgoing_audio(&mut self, samples_8k: &[i16]) -> (r: Vec<Vec<u8>>)
        ensures
            views::of(r@) == old(self)@.frames(samples_8k@),
            forall|i: int| 0 <= i < r@.len() ==> (#[trigger] r@[i])@.len() == TWILIO_FRAME_BYTES,
            final(self)@ == old(self)@.after_speech(samples_8k@),
    {
        let ghost before = self@;
        match self.tts_downsampler.take() {
            Some(mut downsampler) => {
                let frames = downsampler.process(samples_8k);
                self.tts_downsampler = Some(downsampler);
                assert(views::of(frames@) =~= before.frames(samples_8k@));
                frames
            },
            None => {
                let r: Vec<Vec<u8>> = Vec::new();
                assert(views::of(r@) =~= before.frames(samples_8k@));
                r
            },
        }
    }

    /// Hands out what is held back of the speech, as a frame.
    pub fn flush_tts_buffer(&mut self) -> (r: Option<Vec<u8>>)
        ensures
            match r {
                Some(frame) => {
                    &&& old(self)@.held is Some
                    &&& old(self)@.held->0.len() > 0
                    &&& frame@ == audio::filled_up(old(self)@.held->0)
                    &&& frame@.len() == TWILIO_FRAME_BYTES
                },
                None => old(self)@.held is None || old(self)@.held->0.len() == 0,
            },
            final(self)@ == (CallView {
                held: if old(self)@.held is Some {
                    Some(seq![])
                } else {
                    None
                },
                ..old(self)@
            }),
    {
        match self.tts_downsampler.take() {
            Some(mut downsampler) => {
                let frame = downsampler.flush();
                self.tts_downsampler = Some(downsampler);
                assert(self@.held->0 =~= seq![]);
                frame
            },
            None => None,
        }
    }

    /// Whether there is an agent to be stopped at the end of the call.
    pub fn shutdown_agent(&self) -> (r: bool)
        ensures
            r == self@.agent_started,
    {
        self.agent_started
    }
}

/// The caller is heard: once the agent was started and the resamplers were made, audio of any
/// length is handed on, a sample for each code, in order; in particular a full frame is. Before, and
/// where the payload is no base64 or empty, nothing is.
pub proof fn law_caller_is_heard(
    call: &CallContext,
    event: &TwilioMediaEvent,
    codes: Seq<u8>,
    r: Option<Vec<i16>>,
)
    requires
        call_ensures(CallContext::on_media, (call, Some(event)), r),
        event.media.payload@ == encoding::encoded(codes),
    ensures
        call@.agent_started && call@.can_upsample && codes.len() > 0 ==> (r matches Some(samples) && {
            &&& samples@.len() == codes.len()
            &&& forall|i: int|
                0 <= i < codes.len() ==> #[trigger] samples@[i] == ulaw::expanded(codes[i])
        }),
        !call@.agent_started || !call@.can_upsample || codes.len() == 0 ==> r is None,
{
    encoding::law_decoding_undoes_encoding(codes);
    assert forall|i: int| 0 <= i < codes.len() implies #[trigger] samples_of(codes)[i]
        == ulaw::expanded(codes[i]) by {
        ulaw::lemma_expanded_range(codes[i]);
    }
}

/// The same holds of the bytes themselves; and what could not be read is passed over.
pub proof fn law_media_is_expanded(
    call: &CallContext,
    bytes: &[u8],
    r: Option<Vec<i16>>,
    event: &TwilioMediaEvent,
    s: Option<Vec<i16>>,
    t: Option<Vec<i16>>,
)
    requires
        call_ensures(CallContext::process_incoming_media, (call, bytes), r),
        call_ensures(CallContext::on_media, (call, Some(event)), s),
        call_ensures(CallContext::on_media, (call, None), t),
    ensures
        call@.agent_started && call@.can_upsample && bytes@.len() > 0 ==> (r matches Some(samples) && {
            &&& samples@.len() == bytes@.len()
            &&& forall|i: int|
                0 <= i < bytes@.len() ==> #[trigger] samples@[i] == ulaw::expanded(bytes@[i])
        }),
        !call@.agent_started || !call@.can_upsample || bytes@.len() == 0 ==> r is None,
        !encoding::is_base64(event.media.payload@) ==> s is None,
        t is None,
{
    let codes = bytes@;
    assert forall|i: int| 0 <= i < codes.len() implies #[trigger] samples_of(codes)[i]
        == ulaw::expanded(codes[i]) by {
        ulaw::lemma_expanded_range(codes[i]);
    }
}

/// What the caller says reaches the agent twice as loud, as far as it can be held, and with no
/// sample lost.
pub proof fn law_caller_reaches_the_agent(samples: &[i16], r: Option<AudioCaptureMessage>)
    requires
        call_ensures(CallContext::forward_media, (samples,), r),
    ensures
        samples@.len() == 0 ==> r is None,
        samples@.len() > 0 ==> (r matches Some(AudioCaptureMessage::Chunk(boosted)) && {
            &&& boosted@.len() == samples@.len()
            &&& forall|i: int|
                0 <= i < samples@.len() && -16384 <= samples@[i] <= 16383 ==> #[trigger] boosted@[i]
                    == 2 * samples@[i]
            &&& forall|i: int|
                0 <= i < samples@.len() && samples@[i] > 16383 ==> #[trigger] boosted@[i] == 32767
            &&& forall|i: int|
                0 <= i < samples@.len() && samples@[i] < -16384 ==> #[trigger] boosted@[i] == -32768
        }),
{
}

/// What the agent says reaches the caller in frames of 160 codes, one for each sample, in order and
/// with nothing lost, once the resamplers were made.
pub proof fn law_agent_reaches_the_caller(call: &mut CallContext, samples: &[i16], r: Vec<Vec<u8>>)
    requires
        call_ensures(CallContext::process_outgoing_audio, (call, samples), r),
    ensures
        forall|k: int| 0 <= k < r@.len() ==> (#[trigger] r@[k])@.len() == 160,
        old(call)@.held is Some ==> final(call)@.held is Some && views::of(r@).flatten()
            + final(call)@.held->0 == old(call)@.held->0 + Seq::new(
            samples@.len(),
            |i: int| ulaw::compressed(samples@[i]) as u8,
        ) && final(call)@.held->0.len() < 160,
        old(call)@.held is None ==> r@.len() == 0 && final(call)@.held is None,
{
    if let Some(held) = old(call)@.held {
        let all = held + audio::codes(samples@);
        framing::law_frames_are_full(all, TWILIO_FRAME_BYTES as nat);
        framing::law_nothing_is_lost(all, TWILIO_FRAME_BYTES as nat);
        assert(audio::codes(samples@) =~= Seq::new(
            samples@.len(),
            |i: int| ulaw::compressed(samples@[i]) as u8,
        ));
    } else {
        assert(views::of(r@).len() == r@.len());
    }
}

/// What is held back of the speech is sent whole at the end, filled up with silence to a frame.
pub proof fn law_held_speech_is_flushed(call: &mut CallContext, r: Option<Vec<u8>>)
    requires
        call_ensures(CallContext::flush_tts_buffer, (call,), r),
    ensures
        r is Some <==> old(call)@.held is Some && old(call)@.held->0.len() > 0,
        r matches Some(frame) ==> {
            let held = old(call)@.held->0;
            &&& frame@.len() == 160
            &&& held.len() <= 160 ==> frame@.take(held.len() as int) == held
            &&& forall|i: int| held.len() <= i < 160 ==> ulaw::expanded(#[trigger] frame@[i]) == 0
        },
        final(call)@.held matches Some(held) ==> held.len() == 0,
{
    if let Some(frame) = r {
        let held = old(call)@.held->0;
        ulaw::law_silence();
        if held.len() <= 160 {
            assert(frame@.take(held.len() as int) =~= held);
        }
    }
}

/// A text of the stream is handled by its event: `start`, `media` and `stop` each in its way, and
/// nothing else, nor a text without one.
pub proof fn law_event_names_decide(event: &Option<Option<String>>, r: TextStep)
    requires
        call_ensures(step_of_event, (event,), r),
    ensures
        r == TextStep::ReadStart <==> (event matches Some(Some(name)) && name@ == "start"@),
        r == TextStep::ReadMedia <==> (event matches Some(Some(name)) && name@ == "media"@),
        r == TextStep::Close <==> (event matches Some(Some(name)) && name@ == "stop"@),
{
    reveal_strlit("start");
    reveal_strlit("media");
    reveal_strlit("stop");
    assert("start"@.len() == 5 && "media"@.len() == 5 && "stop"@.len() == 4);
    assert("start"@[0] == 's' && "media"@[0] == 'm');
}

/// A readable start of the stream names the stream and the call, and what fails then closes the
/// connection with the report of it. One that cannot be read changes nothing.
pub proof fn law_start_names_the_call(
    call: &mut CallContext,
    event: &TwilioStartEvent,
    resamplers: Option<(Result<(), String>, Result<(), String>)>,
    agent: Option<Result<(), String>>,
    r: CallStartStep,
    other: &mut CallContext,
    s: CallStartStep,
)
    requires
        call_ensures(CallContext::start_step, (call, Some(event), resamplers, agent), r),
        call_ensures(CallContext::start_step, (other, None, resamplers, agent), s),
    ensures
        final(call)@.stream_sid == event.stream_sid@,
        final(call)@.call_sid == event.start.call_sid@,
        final(call)@.stopping == old(call)@.stopping,
        r is MakeResamplers <==> resamplers is None,
        r is Close <==> resamplers is Some && ((resamplers->0).0 is Err || (resamplers->0).1 is Err
            || (agent is Some && agent->0 is Err)),
        r is StartAgent <==> resamplers is Some && (resamplers->0).0 is Ok && (resamplers->0).1 is Ok
            && agent is None && !old(call)@.start_tried,
        r is Greet <==> resamplers is Some && (resamplers->0).0 is Ok && (resamplers->0).1 is Ok
            && agent is Some && agent->0 is Ok,
        r is Greet ==> final(call)@.agent_started,
        !(r is Greet) ==> final(call)@.agent_started == old(call)@.agent_started,
        r is StartAgent ==> final(call)@.start_tried && final(call)@.can_upsample
            && final(call)@.held is Some,
        resamplers is Some && (resamplers->0).0 is Ok && (resamplers->0).1 is Ok && agent is Some
            && agent->0 is Err ==> (r matches CallStartStep::Close(e) && e@
            == (agent->0)->Err_0@),
        s is Continue,
        final(other)@ == old(other)@,
{
}

/// A call begins without names, agent, or anything to send; its end is remembered.
pub proof fn law_call_begins_and_ends(
    fresh: CallContext,
    call: &mut CallContext,
    asked: &CallContext,
    stopping: bool,
    started: bool,
)
    requires
        call_ensures(CallContext::new, (), fresh),
        call_ensures(CallContext::shutdown, (call,), ()),
        call_ensures(CallContext::is_stopping, (asked,), stopping),
        call_ensures(CallContext::shutdown_agent, (asked,), started),
    ensures
        fresh@.stream_sid.len() == 0,
        !fresh@.agent_started && !fresh@.start_tried && !fresh@.can_upsample && !fresh@.stopping,
        fresh@.held is None,
        final(call)@.stopping,
        final(call)@.agent_started == old(call)@.agent_started,
        stopping == asked@.stopping,
        started == asked@.agent_started,
{
}

/// What a text calls for is decided by what it holds under `event`, and by that alone.
pub proof fn law_texts_are_told_apart(text: &str, r: TextStep)
    requires
        call_ensures(handle_twilio_text_message, (text,), r),
    ensures
        ({
            let name = json_string_member(text@, "event"@);
            &&& r == TextStep::ReadStart <==> name == Some(Some("start"@))
            &&& r == TextStep::ReadMedia <==> name == Some(Some("media"@))
            &&& r == TextStep::Close <==> name == Some(Some("stop"@))
        }),
{
    reveal_strlit("start");
    reveal_strlit("media");
    reveal_strlit("stop");
    assert("start"@.len() == 5 && "media"@.len() == 5 && "stop"@.len() == 4);
    assert("start"@[0] == 's' && "media"@[0] == 'm');
}

/// What came of the resamplers and of the agent is remembered, what failed is reported, and the
/// agent is tried once.
pub proof fn law_parts_of_a_start(
    a: &mut CallContext,
    upsampler: Result<(), String>,
    downsampler: Result<(), String>,
    r: Result<(), String>,
    b: &mut CallContext,
    c: &mut CallContext,
    first: bool,
    second: bool,
    d: &mut CallContext,
    started: Result<(), String>,
    greeting: Result<String, String>,
)
    requires
        call_ensures(CallContext::init_resamplers, (a, upsampler, downsampler), r),
        call_ensures(CallContext::begin_agent, (b,), first),
        call_ensures(CallContext::begin_agent, (c,), second),
        *old(c) == *final(b),
        call_ensures(CallContext::start_agent, (d, started), greeting),
    ensures
        r is Ok <==> upsampler is Ok && downsampler is Ok,
        r is Ok ==> final(a)@.can_upsample && (final(a)@.held matches Some(held) && held.len() == 0),
        upsampler matches Err(e) ==> exists|what: Seq<char>| r->Err_0@ == #[trigger] (what + e@),
        upsampler is Ok ==> (downsampler matches Err(e) ==> exists|what: Seq<char>|
            r->Err_0@ == #[trigger] (what + e@)),
        first == !old(b)@.start_tried,
        !second,
        greeting is Ok <==> started is Ok,
        started is Ok ==> final(d)@.agent_started && greeting->Ok_0@.len() > 0,
        started matches Err(e) ==> greeting->Err_0@ == e@ && final(d)@ == old(d)@,
{
    if let Err(e) = upsampler {
        assert(r->Err_0@ == "Failed to create audio resampler: "@ + e@);
    } else if let Err(e) = downsampler {
        assert(r->Err_0@ == "Failed to create TTS downsampler: "@ + e@);
    }
    reveal_strlit("Hello! How can I help you today?");
}

/// The names of a call and its stream are read back as they were set.
pub proof fn law_names_are_read_back(
    a: &mut CallContext,
    stream_sid: String,
    b: &mut CallContext,
    call_sid: String,
    w: &CallContext,
    stream: String,
    call: String,
)
    requires
        call_ensures(CallContext::set_stream_sid, (a, stream_sid), ()),
        call_ensures(CallContext::set_call_sid, (b, call_sid), ()),
        *old(b) == *final(a),
        *w == *final(b),
        call_ensures(CallContext::get_stream_sid, (w,), stream),
        call_ensures(CallContext::get_call_sid, (w,), call),
    ensures
        stream@ == stream_sid@,
        call@ == call_sid@,
        w@.agent_started == old(a)@.agent_started,
{
}

} // verus!
