//! A conversation over a WebSocket: what the client sends, and what it is sent.

use vstd::prelude::*;
use vstd::string::*;

use crate::clock::MonotonicTime;
use crate::encoding::{from_base64, to_base64};
use crate::messages::{AudioCaptureMessage, AudioPlaybackMessage, PlaybackView};
use crate::pcm::{bytes_to_samples, samples_to_bytes};
use crate::{encoding, pcm, views};

verus! {

/// How often the client is pinged.
pub const HEARTBEAT_INTERVAL_MS: u64 = 5000;

/// How long the client may be silent, in nanoseconds.
pub const CLIENT_TIMEOUT_NANOS: u64 = 10_000_000_000;

/// How long audio is gathered before it is sent.
pub const BATCH_INTERVAL_MS: u64 = 20;

/// The number of samples that are sent without waiting any longer.
pub const MAX_BATCH_SAMPLES: usize = 4800;

/// How long to wait behind a reset before anything else is sent.
pub const RESET_DELAY_MS: u64 = 5;

/// What a client sends.
#[derive(Debug)]
pub enum WebSocketMessage {
    /// Captured samples, as the base64 text of their bytes.
    Audio { data: String },
    Ping,
    Pong,
}

/// What a client is sent.
#[derive(Debug)]
pub enum WebSocketResponse {
    /// Samples to be played, as the base64 text of their bytes.
    Audio { data: String },
    Error { message: String },
    Pong,
    /// Drop what is waiting to be played.
    Reset,
}

/// The mathematical counterpart of a [`WebSocketResponse`].
pub enum ResponseView {
    Audio { data: Seq<char> },
    Error { message: Seq<char> },
    Pong,
    Reset,
}

impl View for WebSocketResponse {
    type V = ResponseView;

    open spec fn view(&self) -> ResponseView {
        match *self {
            WebSocketResponse::Audio { data } => ResponseView::Audio { data: data@ },
            WebSocketResponse::Error { message } => ResponseView::Error { message: message@ },
            WebSocketResponse::Pong => ResponseView::Pong,
            WebSocketResponse::Reset => ResponseView::Reset,
        }
    }
}

/// The response that carries samples.
pub open spec fn audio(samples: Seq<i16>) -> ResponseView {
    ResponseView::Audio { data: encoding::encoded(pcm::bytes(samples)) }
}

/// The mathematical counterpart of a [`PlaybackBatcher`].
pub struct BatcherView {
    /// The samples that were not sent yet.
    pub buffer: Seq<i16>,
    /// When samples were sent last.
    pub last_send: MonotonicTime,
}

impl BatcherView {
    /// Whether samples are sent once these have come.
    pub open spec fn sends(self, samples: Seq<i16>, now: MonotonicTime) -> bool {
        let all = self.buffer + samples;
        all.len() > 0 && (all.len() >= MAX_BATCH_SAMPLES || self.last_send.millis_until(now)
            >= BATCH_INTERVAL_MS)
    }

    /// What is sent for a message.
    pub open spec fn response(self, message: PlaybackView, now: MonotonicTime) -> Option<
        ResponseView,
    > {
        match message {
            PlaybackView::Play(samples) => if self.sends(samples, now) {
                Some(audio(self.buffer + samples))
            } else {
                None
            },
            PlaybackView::Reset => Some(ResponseView::Reset),
        }
    }

    /// The batcher after a message.
    pub open spec fn after(self, message: PlaybackView, now: MonotonicTime) -> BatcherView {
        match message {
            PlaybackView::Play(samples) => BatcherView {
                buffer: if self.sends(samples, now) {
                    seq![]
                } else {
                    self.buffer + samples
                },
                ..self
            },
            PlaybackView::Reset => BatcherView { buffer: seq![], ..self },
        }
    }
}

/// What a client hears: the samples of the responses so far that came after the last reset.
pub open spec fn heard(responses: Seq<ResponseView>) -> Seq<i16>
    decreases responses.len(),
{
    if responses.len() == 0 {
        seq![]
    } else {
        let before = heard(responses.drop_last());
        match responses.last() {
            ResponseView::Audio { data } => before + pcm::samples(encoding::decoded(data)),
            ResponseView::Reset => seq![],
            _ => before,
        }
    }
}

/// What was to be played: the samples so far that came after the last reset.
pub open spec fn to_be_heard(messages: Seq<PlaybackView>) -> Seq<i16>
    decreases messages.len(),
{
    if messages.len() == 0 {
        seq![]
    } else {
        match messages.last() {
            PlaybackView::Play(samples) => to_be_heard(messages.drop_last()) + samples,
            PlaybackView::Reset => seq![],
        }
    }
}

/// The batcher after several messages, at the given times.
pub open spec fn batched(
    b: BatcherView,
    messages: Seq<PlaybackView>,
    times: Seq<MonotonicTime>,
) -> BatcherView
    decreases messages.len(),
{
    if messages.len() == 0 {
        b
    } else {
        let before = batched(b, messages.drop_last(), times);
        let now = times[messages.len() - 1];
        let after = before.after(messages.last(), now);
        if messages.last() is Play && before.response(messages.last(), now) is Some {
            BatcherView { last_send: now, ..after }
        } else {
            after
        }
    }
}

/// What is sent for several messages, at the given times.
pub open spec fn responses(
    b: BatcherView,
    messages: Seq<PlaybackView>,
    times: Seq<MonotonicTime>,
) -> Seq<ResponseView>
    decreases messages.len(),
{
    if messages.len() == 0 {
        seq![]
    } else {
        let before = responses(b, messages.drop_last(), times);
        let now = times[messages.len() - 1];
        match batched(b, messages.drop_last(), times).response(messages.last(), now) {
            Some(response) => before.push(response),
            None => before,
        }
    }
}

/// However audio is gathered, the client hears what was to be played, in order and nothing twice,
/// but for what is still being gathered; and nothing from before a reset is heard after it.
pub proof fn law_client_hears_what_was_played(
    start: MonotonicTime,
    messages: Seq<PlaybackView>,
    times: Seq<MonotonicTime>,
)
    ensures
        ({
            let b = BatcherView { buffer: seq![], last_send: start };
            heard(responses(b, messages, times)) + batched(b, messages, times).buffer
                == to_be_heard(messages)
        }),
    decreases messages.len(),
{
    let b = BatcherView { buffer: seq![], last_send: start };
    if messages.len() == 0 {
        assert(heard(responses(b, messages, times)) + batched(b, messages, times).buffer
            =~= to_be_heard(messages));
    } else {
        let init = messages.drop_last();
        let now = times[messages.len() - 1];
        law_client_hears_what_was_played(start, init, times);
        let before = batched(b, init, times);
        let sent = responses(b, init, times);
        let after = batched(b, messages, times);
        match messages.last() {
            PlaybackView::Play(samples) => {
                let all = before.buffer + samples;
                if before.sends(samples, now) {
                    let out = sent.push(audio(all));
                    assert(out.drop_last() =~= sent);
                    encoding::law_decoding_undoes_encoding(pcm::bytes(all));
                    pcm::law_samples_survive(all);
                    assert(heard(out) == heard(sent) + all);
                    assert(after.buffer =~= seq![]);
                    assert(heard(out) + after.buffer =~= (heard(sent) + before.buffer) + samples);
                } else {
                    assert(heard(sent) + all =~= (heard(sent) + before.buffer) + samples);
                }
            },
            PlaybackView::Reset => {
                let out = sent.push(ResponseView::Reset);
                assert(heard(out) + after.buffer =~= seq![]);
            },
        }
    }
}

/// Audio on its way to a client, gathered so that it is not sent in too small parts.
pub struct PlaybackBatcher {
    audio_buffer: Vec<i16>,
    last_send: MonotonicTime,
}

impl View for PlaybackBatcher {
    type V = BatcherView;

    closed spec fn view(&self) -> BatcherView {
        BatcherView { buffer: self.audio_buffer@, last_send: self.last_send }
    }
}

impl PlaybackBatcher {
    /// What is gathered is always less than what is sent at once.
    #[verifier::type_invariant]
    spec fn holds_less_than_a_batch(&self) -> bool {
        self.audio_buffer@.len() < MAX_BATCH_SAMPLES
    }

    /// A batcher that has gathered nothing.
    pub fn new(now: MonotonicTime) -> (r: Self)
        ensures
            r@ == (BatcherView { buffer: seq![], last_send: now }),
    {
        let r = PlaybackBatcher { audio_buffer: Vec::new(), last_send: now };
        assert(r@.buffer =~= seq![]);
        r
    }

    /// Takes in a message, and says what the client is sent for it.
    pub fn on_message(&mut self, message: AudioPlaybackMessage, now: MonotonicTime) -> (r: Option<
        WebSocketResponse,
    >)
        requires
            message@ matches PlaybackView::Play(samples) ==> encoding::encoded_len(
                2 * (MAX_BATCH_SAMPLES as nat + samples.len()),
            ) <= isize::MAX,
        ensures
            views::opt(r) == old(self)@.response(message@, now),
            final(self)@ == old(self)@.after(message@, now),
    {
        proof {
            use_type_invariant(&*self);
        }
        match message {
            AudioPlaybackMessage::Play(samples) => {
                let mut samples = samples;
                let mut all: Vec<i16> = Vec::new();
                std::mem::swap(&mut all, &mut self.audio_buffer);
                all.append(&mut samples);
                let due: bool = all.len() >= MAX_BATCH_SAMPLES || self.last_send.elapsed_millis(now)
                    >= BATCH_INTERVAL_MS;
                if due && all.len() > 0 {
                    let bytes = samples_to_bytes(all.as_slice());
                    let data = to_base64(bytes.as_slice());
                    assert(self@.buffer =~= seq![]);
                    Some(WebSocketResponse::Audio { data })
                } else {
                    self.audio_buffer = all;
                    None
                }
            },
            AudioPlaybackMessage::Reset => {
                self.audio_buffer = Vec::new();
                assert(self@.buffer =~= seq![]);
                Some(WebSocketResponse::Reset)
            },
        }
    }

    /// Takes in that audio was sent.
    pub fn on_sent(&mut self, now: MonotonicTime)
        ensures
            final(self)@ == (BatcherView { last_send: now, ..old(self)@ }),
    {
        proof {
            use_type_invariant(&*self);
        }
        self.last_send = now;
    }
}

/// What a message of the client calls for.
#[derive(Debug)]
pub enum SessionStep {
    /// Nothing.
    Nothing,
    /// Hand audio to the agent; where that fails, answer with an error if asked to.
    Forward { message: AudioCaptureMessage, report_failure: bool },
    /// Answer the client.
    Reply(WebSocketResponse),
    /// Answer a ping of the connection.
    Pong(Vec<u8>),
    /// Read the text as a message.
    Parse(String),
    /// End the session.
    Stop,
}

/// The mathematical counterpart of a [`SessionStep`].
pub enum SessionStepView {
    Nothing,
    Forward { samples: Seq<i16>, report_failure: bool },
    Reply(ResponseView),
    Pong(Seq<u8>),
    Parse(Seq<char>),
    Stop,
}

impl View for SessionStep {
    type V = SessionStepView;

    open spec fn view(&self) -> SessionStepView {
        match *self {
            SessionStep::Nothing => SessionStepView::Nothing,
            SessionStep::Forward {
                message: AudioCaptureMessage::Chunk(samples),
                report_failure,
            } => SessionStepView::Forward { samples: samples@, report_failure },
            SessionStep::Reply(response) => SessionStepView::Reply(response@),
            SessionStep::Pong(bytes) => SessionStepView::Pong(bytes@),
            SessionStep::Parse(text) => SessionStepView::Parse(text@),
            SessionStep::Stop => SessionStepView::Stop,
        }
    }
}

/// What came over the connection.
#[derive(Debug)]
pub enum Frame {
    Ping(Vec<u8>),
    Pong,
    Text(String),
    Binary(Vec<u8>),
    /// The end of the connection, or anything that is not understood.
    Closed,
}

/// What bytes of audio call for: an odd number of bytes does not hold whole samples, and is
/// dropped.
pub open spec fn forward(bytes: Seq<u8>, report_failure: bool) -> SessionStepView {
    if bytes.len() % 2 != 0 {
        SessionStepView::Nothing
    } else {
        SessionStepView::Forward { samples: pcm::samples(bytes), report_failure }
    }
}

/// What a message calls for, or a text that is none, with the report of why.
pub open spec fn message_step(message: Result<WebSocketMessage, String>) -> SessionStepView {
    match message {
        Ok(WebSocketMessage::Audio { data }) => if encoding::is_base64(data@) {
            forward(encoding::decoded(data@), true)
        } else {
            SessionStepView::Reply(
                ResponseView::Error {
                    message: "Invalid audio data: "@ + encoding::decode_error_text(data@),
                },
            )
        },
        Ok(WebSocketMessage::Ping) => SessionStepView::Reply(ResponseView::Pong),
        Ok(WebSocketMessage::Pong) => SessionStepView::Nothing,
        Err(e) => SessionStepView::Reply(
            ResponseView::Error { message: "Invalid message format: "@ + e@ },
        ),
    }
}

/// Whether a message tells that the client is alive.
pub open spec fn is_heartbeat(message: Result<WebSocketMessage, String>) -> bool {
    message matches Ok(m) && (m is Ping || m is Pong)
}

/// What a frame calls for.
pub open spec fn frame_step(frame: Frame) -> SessionStepView {
    match frame {
        Frame::Ping(bytes) => SessionStepView::Pong(bytes@),
        Frame::Pong => SessionStepView::Nothing,
        Frame::Text(text) => SessionStepView::Parse(text@),
        Frame::Binary(bytes) => forward(bytes@, false),
        Frame::Closed => SessionStepView::Stop,
    }
}

/// Samples that a client sends as the base64 text of their bytes reach the agent as they were.
pub proof fn law_client_audio_reaches_the_agent(data: String, samples: Seq<i16>)
    requires
        data@ == encoding::encoded(pcm::bytes(samples)),
    ensures
        message_step(Ok(WebSocketMessage::Audio { data })) == (SessionStepView::Forward {
            samples,
            report_failure: true,
        }),
{
    encoding::law_decoding_undoes_encoding(pcm::bytes(samples));
    pcm::law_samples_survive(samples);
}

fn forward_bytes(bytes: &[u8], report_failure: bool) -> (r: SessionStep)
    ensures
        r@ == forward(bytes@, report_failure),
{
    if bytes.len() % 2 != 0 {
        SessionStep::Nothing
    } else {
        SessionStep::Forward {
            message: AudioCaptureMessage::Chunk(bytes_to_samples(bytes)),
            report_failure,
        }
    }
}

/// The answer to a client whose audio could not be handed to the agent.
pub fn forward_failed() -> (r: WebSocketResponse)
    ensures
        r@ == (ResponseView::Error { message: "Failed to process audio"@ }),
{
    WebSocketResponse::Error { message: "Failed to process audio".to_owned() }
}

/// What the next heartbeat calls for.
#[derive(Debug, Clone, Copy, PartialEq, Eq, Structural)]
pub enum Heartbeat {
    /// The client was silent for too long: end the session.
    TimedOut,
    /// Ping the client, and send it the answer to a ping.
    Alive,
}

/// A session with a client.
pub struct WebSocketSession {
    hb: MonotonicTime,
    stop_requested: bool,
}

impl WebSocketSession {
    /// When the client was last known to be alive.
    pub closed spec fn last_seen(&self) -> MonotonicTime {
        self.hb
    }

    /// Whether the agent was told to stop.
    pub closed spec fn stop_requested(&self) -> bool {
        self.stop_requested
    }

    /// A session that begins.
    pub fn new(now: MonotonicTime) -> (r: Self)
        ensures
            r.last_seen() == now,
            !r.stop_requested(),
    {
        WebSocketSession { hb: now, stop_requested: false }
    }

    /// Looks whether the client is alive.
    pub fn hb(&self, now: MonotonicTime) -> (r: Heartbeat)
        ensures
            r == if self.last_seen().nanos_until(now) > CLIENT_TIMEOUT_NANOS {
                Heartbeat::TimedOut
            } else {
                Heartbeat::Alive
            },
    {
        if self.hb.elapsed_nanos(now) > CLIENT_TIMEOUT_NANOS {
            Heartbeat::TimedOut
        } else {
            Heartbeat::Alive
        }
    }

    /// Takes in a message, or a text that is none, with the report of why.
    pub fn handle_message(&mut self, message: Result<WebSocketMessage, String>, now: MonotonicTime)
        -> (r: SessionStep)
        ensures
            r@ == message_step(message),
            final(self).last_seen() == if is_heartbeat(message) {
                now
            } else {
                old(self).last_seen()
            },
            final(self).stop_requested() == old(self).stop_requested(),
    {
        match message {
            Ok(WebSocketMessage::Audio { data }) => match from_base64(data.as_str()) {
                Ok(bytes) => forward_bytes(bytes.as_slice(), true),
                Err(e) => {
                    let mut report = "Invalid audio data: ".to_owned();
                    report.append(e.as_str());
                    SessionStep::Reply(WebSocketResponse::Error { message: report })
                },
            },
            Ok(WebSocketMessage::Ping) => {
                self.hb = now;
                SessionStep::Reply(WebSocketResponse::Pong)
            },
            Ok(WebSocketMessage::Pong) => {
                self.hb = now;
                SessionStep::Nothing
            },
            Err(e) => {
                let mut report = "Invalid message format: ".to_owned();
                report.append(e.as_str());
                SessionStep::Reply(WebSocketResponse::Error { message: report })
            },
        }
    }

    /// Takes in a frame.
    pub fn handle(&mut self, frame: Frame, now: MonotonicTime) -> (r: SessionStep)
        ensures
            r@ == frame_step(frame),
            final(self).last_seen() == if frame is Ping || frame is Pong {
                now
            } else {
                old(self).last_seen()
            },
            final(self).stop_requested() == old(self).stop_requested(),
    {
        match frame {
            Frame::Ping(bytes) => {
                self.hb = now;
                SessionStep::Pong(bytes)
            },
            Frame::Pong => {
                self.hb = now;
                SessionStep::Nothing
            },
            Frame::Text(text) => SessionStep::Parse(text),
            Frame::Binary(bytes) => forward_bytes(bytes.as_slice(), false),
            Frame::Closed => SessionStep::Stop,
        }
    }

    /// Ends the session: tells whether the agent is still to be told, which it is once.
    pub fn request_stop(&mut self) -> (r: bool)
        ensures
            r == !old(self).stop_requested(),
            final(self).stop_requested(),
            final(self).last_seen() == old(self).last_seen(),
    {
        let first = !self.stop_requested;
        self.stop_requested = true;
        first
    }
}

/// Audio for the client is sent as soon as enough of it was gathered, 4800 samples, or 20
/// milliseconds have passed since the last time; else it is gathered. What is sent is all that was
/// gathered, in order, and then nothing of it is left.
pub proof fn law_audio_is_sent_in_time(
    b: &mut PlaybackBatcher,
    samples: Vec<i16>,
    now: MonotonicTime,
    r: Option<WebSocketResponse>,
)
    requires
        call_ensures(PlaybackBatcher::on_message, (b, AudioPlaybackMessage::Play(samples), now), r),
    ensures
        ({
            let all = old(b)@.buffer + samples@;
            &&& r is Some <==> all.len() > 0 && (all.len() >= 4800 || now.nanos
                >= old(b)@.last_send.nanos + 20_000_000)
            &&& r is Some ==> (r->0 matches WebSocketResponse::Audio { data } && encoding::is_base64(
                data@,
            ) && pcm::samples(encoding::decoded(data@)) == all) && final(b)@.buffer.len() == 0
            &&& r is None ==> final(b)@.buffer == all
        }),
        final(b)@.last_send == old(b)@.last_send,
{
    let all = old(b)@.buffer + samples@;
    let since = now.nanos - old(b)@.last_send.nanos;
    assert(since >= 20_000_000 <==> since / 1_000_000 >= 20);
    encoding::law_decoding_undoes_encoding(pcm::bytes(all));
    pcm::law_samples_survive(all);
}

/// A reset reaches the client at once, and what was gathered is dropped with it. The time of
/// sending is remembered.
pub proof fn law_reset_reaches_the_client(
    b: &mut PlaybackBatcher,
    now: MonotonicTime,
    r: Option<WebSocketResponse>,
    c: &mut PlaybackBatcher,
)
    requires
        call_ensures(PlaybackBatcher::on_message, (b, AudioPlaybackMessage::Reset, now), r),
        call_ensures(PlaybackBatcher::on_sent, (c, now), ()),
    ensures
        r matches Some(WebSocketResponse::Reset),
        final(b)@.buffer.len() == 0,
        final(c)@.last_send == now,
        final(c)@.buffer == old(c)@.buffer,
{
}

/// What a client says reaches the agent: samples of any number, as base64 text or as bytes, are
/// handed on as they were. Bytes that hold no whole samples are dropped.
pub proof fn law_client_is_heard(
    s: &mut WebSocketSession,
    data: String,
    t: &mut WebSocketSession,
    bytes: Vec<u8>,
    samples: Seq<i16>,
    now: MonotonicTime,
    from_text: SessionStep,
    from_bytes: SessionStep,
)
    requires
        call_ensures(
            WebSocketSession::handle_message,
            (s, Ok(WebSocketMessage::Audio { data }), now),
            from_text,
        ),
        call_ensures(WebSocketSession::handle, (t, Frame::Binary(bytes), now), from_bytes),
    ensures
        data@ == encoding::encoded(pcm::bytes(samples)) ==> (from_text matches SessionStep::Forward {
            message: AudioCaptureMessage::Chunk(heard),
            report_failure,
        } && heard@ == samples && report_failure),
        bytes@ == pcm::bytes(samples) ==> (from_bytes matches SessionStep::Forward {
            message: AudioCaptureMessage::Chunk(heard),
            report_failure,
        } && heard@ == samples && !report_failure),
        bytes@.len() % 2 == 1 ==> from_bytes is Nothing,
        bytes@.len() % 2 == 1 && data@ == encoding::encoded(bytes@) ==> from_text is Nothing,
        !encoding::is_base64(data@) ==> (from_text matches SessionStep::Reply(
            WebSocketResponse::Error { message },
        )),
{
    encoding::law_decoding_undoes_encoding(pcm::bytes(samples));
    encoding::law_decoding_undoes_encoding(bytes@);
    pcm::law_samples_survive(samples);
}

/// A ping is answered with what it carried, a text is read as it is, and the end of the connection
/// ends the session; a ping among the messages is answered too, and what is no message is reported.
pub proof fn law_frames_are_answered(
    s: &mut WebSocketSession,
    frame: Frame,
    now: MonotonicTime,
    r: SessionStep,
    t: &mut WebSocketSession,
    message: Result<WebSocketMessage, String>,
    q: SessionStep,
)
    requires
        call_ensures(WebSocketSession::handle, (s, frame, now), r),
        call_ensures(WebSocketSession::handle_message, (t, message, now), q),
    ensures
        frame matches Frame::Ping(bytes) ==> (r matches SessionStep::Pong(back) && back@ == bytes@),
        frame matches Frame::Text(text) ==> (r matches SessionStep::Parse(same) && same@ == text@),
        r is Stop <==> frame is Closed,
        frame is Pong ==> r is Nothing,
        message matches Ok(WebSocketMessage::Ping) ==> (q matches SessionStep::Reply(
            WebSocketResponse::Pong,
        )),
        message matches Ok(WebSocketMessage::Pong) ==> q is Nothing,
        message matches Err(e) ==> (q matches SessionStep::Reply(
            WebSocketResponse::Error { message: report },
        ) && exists|what: Seq<char>| report@ == #[trigger] (what + e@)),
{
    if let Err(e) = message {
        assert(q@ == SessionStepView::Reply(
            ResponseView::Error { message: "Invalid message format: "@ + e@ },
        ));
    }
}

/// A client is given up exactly when nothing was heard of it for more than ten seconds: each ping
/// and pong counts, as a frame or as a message, and nothing else does.
pub proof fn law_silent_client_is_given_up(
    w: &WebSocketSession,
    s: &mut WebSocketSession,
    frame: Frame,
    t: &mut WebSocketSession,
    message: Result<WebSocketMessage, String>,
    now: MonotonicTime,
    beat: Heartbeat,
    r: SessionStep,
    q: SessionStep,
)
    requires
        call_ensures(WebSocketSession::hb, (w, now), beat),
        call_ensures(WebSocketSession::handle, (s, frame, now), r),
        call_ensures(WebSocketSession::handle_message, (t, message, now), q),
    ensures
        beat == Heartbeat::TimedOut <==> now.nanos > w.last_seen().nanos + 10_000_000_000,
        beat == Heartbeat::Alive <==> now.nanos <= w.last_seen().nanos + 10_000_000_000,
        frame is Ping || frame is Pong ==> final(s).last_seen() == now,
        !(frame is Ping || frame is Pong) ==> final(s).last_seen() == old(s).last_seen(),
        message matches Ok(m) && (m is Ping || m is Pong) ==> final(t).last_seen() == now,
        message matches Ok(m) && m is Audio ==> final(t).last_seen() == old(t).last_seen(),
        message is Err ==> final(t).last_seen() == old(t).last_seen(),
        final(s).stop_requested() == old(s).stop_requested(),
        final(t).stop_requested() == old(t).stop_requested(),
{
}

/// The agent of a session is told to stop once, however often the session ends.
pub proof fn law_agent_is_stopped_once(
    begun: WebSocketSession,
    now: MonotonicTime,
    s: &mut WebSocketSession,
    t: &mut WebSocketSession,
    first: bool,
    second: bool,
)
    requires
        call_ensures(WebSocketSession::new, (now,), begun),
        *old(s) == begun,
        call_ensures(WebSocketSession::request_stop, (s,), first),
        *old(t) == *final(s),
        call_ensures(WebSocketSession::request_stop, (t,), second),
    ensures
        begun.last_seen() == now,
        first,
        !second,
{
}

/// A client is given up once it has missed two heartbeats. A batcher begins with nothing gathered.
pub proof fn law_two_heartbeats_may_be_missed(now: MonotonicTime, b: PlaybackBatcher)
    requires
        call_ensures(PlaybackBatcher::new, (now,), b),
    ensures
        CLIENT_TIMEOUT_NANOS == 2 * HEARTBEAT_INTERVAL_MS * 1_000_000,
        b@.buffer.len() == 0,
        b@.last_send == now,
{
}

} // verus!
