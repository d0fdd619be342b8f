//! The tasks of a call: what each of them does next.

use vstd::prelude::*;

use crate::clock::MonotonicTime;
use crate::messages::{AudioPlaybackMessage, PlaybackView};
use crate::twilio::audio;
use crate::twilio::audio::{reduce, TWILIO_FRAME_BYTES};
use crate::twilio::call_handler::{CallContext, CallView};
use crate::twilio::twilio;
use crate::twilio::twilio::{
    clear_message, media_message, OutgoingView, TwilioClearMessage, TwilioMediaMessage,
};
use crate::{encoding, views};

verus! {

/// How often the connection is pinged.
pub const TWILIO_PING_INTERVAL_MS: u64 = 3000;

/// How often it is looked whether the connection is alive.
pub const HEARTBEAT_CHECK_INTERVAL_MS: u64 = 5000;

/// How long the connection may be silent, in nanoseconds: ten times the interval of the pings.
pub const HEARTBEAT_TIMEOUT_NANOS: u64 = 30_000_000_000;

/// How many frames are sent between two times that other tasks are let in.
pub const YIELD_FRAMES: usize = 5;

/// What the sender is told.
#[derive(Debug)]
pub enum TwilioOutMessage {
    /// Send frames of audio.
    Audio(Vec<Vec<u8>>),
    /// Have the waiting audio dropped.
    Clear,
    /// Answer a ping.
    Pong(Vec<u8>),
    /// Send what is held back of the speech.
    Flush,
    /// End.
    Shutdown,
}

/// The mathematical counterpart of a [`TwilioOutMessage`].
pub enum OutMessageView {
    Audio(Seq<Seq<u8>>),
    Clear,
    Pong(Seq<u8>),
    Flush,
    Shutdown,
}

impl View for TwilioOutMessage {
    type V = OutMessageView;

    open spec fn view(&self) -> OutMessageView {
        match *self {
            TwilioOutMessage::Audio(frames) => OutMessageView::Audio(views::of(frames@)),
            TwilioOutMessage::Clear => OutMessageView::Clear,
            TwilioOutMessage::Pong(bytes) => OutMessageView::Pong(bytes@),
            TwilioOutMessage::Flush => OutMessageView::Flush,
            TwilioOutMessage::Shutdown => OutMessageView::Shutdown,
        }
    }
}

/// What the sender does.
#[derive(Debug)]
pub enum SenderStep {
    /// Send audio. Where `required`, a failure ends the sender.
    SendMedia { message: TwilioMediaMessage, required: bool },
    /// Have the waiting audio dropped. A failure is passed over.
    SendClear(TwilioClearMessage),
    /// Answer a ping. A failure is passed over.
    SendPong(Vec<u8>),
    /// Ping the connection. A failure ends the sender.
    SendPing,
    /// Let other tasks in.
    Yield,
    /// Close the connection and end.
    Close,
}

/// The mathematical counterpart of a [`SenderStep`].
pub enum SenderStepView {
    SendMedia { message: OutgoingView, required: bool },
    SendClear(OutgoingView),
    SendPong(Seq<u8>),
    SendPing,
    Yield,
    Close,
}

impl View for SenderStep {
    type V = SenderStepView;

    open spec fn view(&self) -> SenderStepView {
        match *self {
            SenderStep::SendMedia { message, required } => SenderStepView::SendMedia {
                message: message@,
                required,
            },
            SenderStep::SendClear(message) => SenderStepView::SendClear(message@),
            SenderStep::SendPong(bytes) => SenderStepView::SendPong(bytes@),
            SenderStep::SendPing => SenderStepView::SendPing,
            SenderStep::Yield => SenderStepView::Yield,
            SenderStep::Close => SenderStepView::Close,
        }
    }
}

/// The sending of a frame. Before the stream has its name nothing is sent.
pub open spec fn send_frame(stream_sid: Seq<char>, frame: Seq<u8>, required: bool) -> Seq<
    SenderStepView,
> {
    if stream_sid.len() > 0 {
        seq![
            SenderStepView::SendMedia {
                message: twilio::media(stream_sid, encoding::encoded(frame)),
                required,
            },
        ]
    } else {
        seq![]
    }
}

/// The sending of frames, in order; other tasks are let in behind the sixth frame and every fifth
/// after it.
pub open spec fn send_frames(stream_sid: Seq<char>, frames: Seq<Seq<u8>>) -> Seq<SenderStepView>
    decreases frames.len(),
{
    if frames.len() == 0 {
        seq![]
    } else {
        let i = frames.len() - 1;
        let sent = send_frames(stream_sid, frames.drop_last()) + send_frame(
            stream_sid,
            frames.last(),
            true,
        );
        if i > 0 && i % (YIELD_FRAMES as int) == 0 {
            sent.push(SenderStepView::Yield)
        } else {
            sent
        }
    }
}

/// What the sender does when it is told something, or can no longer be told anything.
pub open spec fn sender_steps(call: CallView, message: Option<OutMessageView>) -> Seq<
    SenderStepView,
> {
    match message {
        Some(OutMessageView::Audio(frames)) => if call.stopping {
            seq![SenderStepView::Close]
        } else {
            send_frames(call.stream_sid, frames)
        },
        Some(OutMessageView::Clear) => if call.stream_sid.len() > 0 {
            seq![SenderStepView::SendClear(twilio::clear(call.stream_sid))]
        } else {
            seq![]
        },
        Some(OutMessageView::Pong(bytes)) => seq![SenderStepView::SendPong(bytes)],
        Some(OutMessageView::Flush) => match call.held {
            Some(held) => if held.len() > 0 {
                send_frame(call.stream_sid, audio::filled_up(held), false)
            } else {
                seq![]
            },
            None => seq![],
        },
        Some(OutMessageView::Shutdown) => seq![SenderStepView::Close],
        None => seq![SenderStepView::Close],
    }
}

/// The payloads of the audio in the sender's steps.
pub open spec fn payloads(steps: Seq<SenderStepView>) -> Seq<Seq<char>>
    decreases steps.len(),
{
    if steps.len() == 0 {
        seq![]
    } else {
        let before = payloads(steps.drop_last());
        match steps.last() {
            SenderStepView::SendMedia {
                message: OutgoingView::Media { event: _, stream_sid: _, payload },
                required: _,
            } => before.push(payload),
            _ => before,
        }
    }
}

/// Once the stream has its name, every frame is sent, in order.
pub proof fn law_every_frame_is_sent(stream_sid: Seq<char>, frames: Seq<Seq<u8>>)
    requires
        stream_sid.len() > 0,
    ensures
        payloads(send_frames(stream_sid, frames)) == Seq::new(
            frames.len(),
            |i: int| encoding::encoded(frames[i]),
        ),
    decreases frames.len(),
{
    let all = Seq::new(frames.len(), |i: int| encoding::encoded(frames[i]));
    if frames.len() > 0 {
        let init = frames.drop_last();
        law_every_frame_is_sent(stream_sid, init);
        let before = send_frames(stream_sid, init);
        let step = send_frame(stream_sid, frames.last(), true)[0];
        let sent = before.push(step);
        assert(before + send_frame(stream_sid, frames.last(), true) =~= sent);
        assert(sent.drop_last() =~= before);
        let yielded = sent.push(SenderStepView::Yield);
        assert(yielded.drop_last() =~= sent);
        assert(payloads(sent) == payloads(before).push(encoding::encoded(frames.last())));
        assert(payloads(yielded) == payloads(sent));
    }
    assert(payloads(send_frames(stream_sid, frames)) =~= all);
}

/// Whether a message that the sender sends is named by what it is.
pub open spec fn is_named(step: SenderStepView) -> bool {
    match step {
        SenderStepView::SendMedia { message, required: _ } => message matches OutgoingView::Media {
            event,
            stream_sid: _,
            payload: _,
        } && event == "media"@,
        SenderStepView::SendClear(message) => message matches OutgoingView::Clear {
            event,
            stream_sid: _,
        } && event == "clear"@,
        _ => true,
    }
}

proof fn lemma_frames_are_named(stream_sid: Seq<char>, frames: Seq<Seq<u8>>)
    ensures
        forall|i: int|
            0 <= i < send_frames(stream_sid, frames).len() ==> is_named(
                #[trigger] send_frames(stream_sid, frames)[i],
            ),
    decreases frames.len(),
{
    if frames.len() > 0 {
        let before = send_frames(stream_sid, frames.drop_last());
        lemma_frames_are_named(stream_sid, frames.drop_last());
        assert forall|i: int| 0 <= i < send_frames(stream_sid, frames).len() implies is_named(
            #[trigger] send_frames(stream_sid, frames)[i],
        ) by {
            if i < before.len() {
                assert(send_frames(stream_sid, frames)[i] == before[i]);
            }
        }
    }
}

/// Every message that the sender sends names what it is: audio is `media`, and the request to drop
/// audio is `clear`.
pub proof fn law_messages_are_named(call: CallView, message: Option<OutMessageView>)
    ensures
        forall|i: int|
            0 <= i < sender_steps(call, message).len() ==> is_named(
                #[trigger] sender_steps(call, message)[i],
            ),
{
    if let Some(OutMessageView::Audio(frames)) = message {
        lemma_frames_are_named(call.stream_sid, frames);
    }
}

/// Pushes the sending of a frame.
fn push_frame(steps: &mut Vec<SenderStep>, stream_sid: &str, frame: &[u8], required: bool)
    requires
        encoding::encoded_len(frame@.len()) <= isize::MAX,
    ensures
        views::of(final(steps)@) == views::of(old(steps)@) + send_frame(
            stream_sid@,
            frame@,
            required,
        ),
{
    broadcast use views::group_views;

    let ghost before = views::of(steps@);
    if let Some(message) = media_message(stream_sid, frame) {
        steps.push(SenderStep::SendMedia { message, required });
    }
    assert(views::of(steps@) =~= before + send_frame(stream_sid@, frame@, required));
}

/// Says what the sender does when it is told something, or can no longer be told anything.
pub fn on_out_message(call: &mut CallContext, message: Option<TwilioOutMessage>) -> (r: Vec<
    SenderStep,
>)
    requires
        message matches Some(TwilioOutMessage::Audio(frames)) ==> forall|i: int|
            0 <= i < frames@.len() ==> encoding::encoded_len((#[trigger] frames@[i])@.len())
                <= isize::MAX,
    ensures
        views::of(r@) == sender_steps(old(call)@, views::opt(message)),
        final(call)@ == if message == Some(TwilioOutMessage::Flush) && old(call)@.held is Some {
            CallView { held: Some(seq![]), ..old(call)@ }
        } else {
            old(call)@
        },
{
    broadcast use views::group_views;

    let mut r: Vec<SenderStep> = Vec::new();
    let ghost before = call@;
    let ghost told = views::opt(message);
    match message {
        Some(TwilioOutMessage::Audio(frames)) => {
            if call.is_stopping() {
                r.push(SenderStep::Close);
            } else {
                let stream_sid = call.get_stream_sid();
                let ghost all = views::of(frames@);
                let n: usize = frames.len();
                let mut i: usize = 0;
                while i < n
                    invariant
                        i <= n,
                        n == frames@.len(),
                        all == views::of(frames@),
                        forall|k: int|
                            0 <= k < frames@.len() ==> encoding::encoded_len(
                                (#[trigger] frames@[k])@.len(),
                            ) <= isize::MAX,
                        views::of(r@) == send_frames(stream_sid@, all.take(i as int)),
                    decreases n - i,
                {
                    broadcast use views::group_views;

                    assert(all.take(i + 1).drop_last() =~= all.take(i as int));
                    assert(all.take(i + 1).last() == frames@[i as int]@);
                    push_frame(&mut r, stream_sid.as_str(), frames[i].as_slice(), true);
                    if i > 0 && i % YIELD_FRAMES == 0 {
                        r.push(SenderStep::Yield);
                    }
                    i = i + 1;
                }
                assert(all.take(n as int) =~= all);
            }
        },
        Some(TwilioOutMessage::Clear) => {
            let stream_sid = call.get_stream_sid();
            if let Some(message) = clear_message(stream_sid.as_str()) {
                r.push(SenderStep::SendClear(message));
            }
        },
        Some(TwilioOutMessage::Pong(bytes)) => {
            r.push(SenderStep::SendPong(bytes));
        },
        Some(TwilioOutMessage::Flush) => {
            if let Some(frame) = call.flush_tts_buffer() {
                let stream_sid = call.get_stream_sid();
                push_frame(&mut r, stream_sid.as_str(), frame.as_slice(), false);
            }
        },
        Some(TwilioOutMessage::Shutdown) => {
            r.push(SenderStep::Close);
        },
        None => {
            r.push(SenderStep::Close);
        },
    }
    assert(views::of(r@) =~= sender_steps(before, told));
    r
}

/// Says what the sender does when a ping is due.
pub fn on_ping_due(call: &CallContext) -> (r: SenderStep)
    ensures
        r@ == if call@.stopping {
            SenderStepView::Close
        } else {
            SenderStepView::SendPing
        },
{
    if call.is_stopping() {
        SenderStep::Close
    } else {
        SenderStep::SendPing
    }
}

/// What the playback of a call does with what the agent says.
#[derive(Debug)]
pub enum PlaybackStep {
    /// End, and have the sender end.
    Stop,
    /// Bring the samples to the telephone's rate, and cut them into frames.
    Resample(Vec<i16>),
    /// Tell the sender. A failure ends the playback.
    Tell(TwilioOutMessage),
}

/// Says what the playback does with a message of the agent.
pub fn on_playback(call: &CallContext, message: AudioPlaybackMessage) -> (r: PlaybackStep)
    ensures
        match r {
            PlaybackStep::Stop => call@.stopping,
            PlaybackStep::Resample(reduced) => {
                &&& !call@.stopping
                &&& message@ is Play
                &&& reduced@.len() == message@->Play_0.len()
                &&& forall|i: int|
                    0 <= i < reduced@.len() ==> #[trigger] reduced@[i] == audio::halved(
                        message@->Play_0[i],
                    )
            },
            PlaybackStep::Tell(told) => {
                &&& !call@.stopping
                &&& message@ is Reset
                &&& told@ == OutMessageView::Clear
            },
        },
{
    if call.is_stopping() {
        return PlaybackStep::Stop;
    }
    match message {
        AudioPlaybackMessage::Play(samples) => PlaybackStep::Resample(reduce(samples.as_slice())),
        AudioPlaybackMessage::Reset => PlaybackStep::Tell(TwilioOutMessage::Clear),
    }
}

/// Takes in speech that was brought to the telephone's rate, and says what the sender is told.
pub fn on_resampled(call: &mut CallContext, samples_8k: &[i16]) -> (r: Option<TwilioOutMessage>)
    ensures
        views::opt(r) == if old(call)@.frames(samples_8k@).len() > 0 {
            Some(OutMessageView::Audio(old(call)@.frames(samples_8k@)))
        } else {
            None
        },
        r matches Some(TwilioOutMessage::Audio(frames)) ==> forall|i: int|
            0 <= i < frames@.len() ==> (#[trigger] frames@[i])@.len() == TWILIO_FRAME_BYTES,
        final(call)@ == old(call)@.after_speech(samples_8k@),
{
    let frames = call.process_outgoing_audio(samples_8k);
    if frames.len() > 0 {
        Some(TwilioOutMessage::Audio(frames))
    } else {
        None
    }
}

/// What came over the connection of a call.
#[derive(Debug)]
pub enum Incoming {
    Ping(Vec<u8>),
    Pong,
    Text(String),
    Close,
    Other,
}

/// What the receiver does.
#[derive(Debug)]
pub enum ReceiverStep {
    /// Go on.
    Continue,
    /// Tell the sender. A failure is passed over.
    Tell(TwilioOutMessage),
    /// Handle a text of the media stream.
    HandleText(String),
    /// End.
    Stop,
}

/// The mathematical counterpart of a [`ReceiverStep`].
pub enum ReceiverStepView {
    Continue,
    Tell(OutMessageView),
    HandleText(Seq<char>),
    Stop,
}

impl View for ReceiverStep {
    type V = ReceiverStepView;

    open spec fn view(&self) -> ReceiverStepView {
        match *self {
            ReceiverStep::Continue => ReceiverStepView::Continue,
            ReceiverStep::Tell(message) => ReceiverStepView::Tell(message@),
            ReceiverStep::HandleText(text) => ReceiverStepView::HandleText(text@),
            ReceiverStep::Stop => ReceiverStepView::Stop,
        }
    }
}

/// What the receiver does with what came over the connection.
pub open spec fn receiver_step(incoming: Incoming) -> ReceiverStepView {
    match incoming {
        Incoming::Ping(bytes) => ReceiverStepView::Tell(OutMessageView::Pong(bytes@)),
        Incoming::Pong => ReceiverStepView::Continue,
        Incoming::Text(text) => ReceiverStepView::HandleText(text@),
        Incoming::Close => ReceiverStepView::Stop,
        Incoming::Other => ReceiverStepView::Continue,
    }
}

/// The receiver of a call.
pub struct Receiver {
    last_heartbeat: MonotonicTime,
}

impl Receiver {
    /// When the connection was last known to be alive.
    pub closed spec fn last_seen(&self) -> MonotonicTime {
        self.last_heartbeat
    }

    /// A receiver that begins.
    pub fn new(now: MonotonicTime) -> (r: Self)
        ensures
            r.last_seen() == now,
    {
        Receiver { last_heartbeat: now }
    }

    /// Takes in what came over the connection.
    pub fn on_incoming(&mut self, incoming: Incoming, now: MonotonicTime) -> (r: ReceiverStep)
        ensures
            r@ == receiver_step(incoming),
            final(self).last_seen() == if incoming is Ping || incoming is Pong {
                now
            } else {
                old(self).last_seen()
            },
    {
        match incoming {
            Incoming::Ping(bytes) => {
                self.last_heartbeat = now;
                ReceiverStep::Tell(TwilioOutMessage::Pong(bytes))
            },
            Incoming::Pong => {
                self.last_heartbeat = now;
                ReceiverStep::Continue
            },
            Incoming::Text(text) => ReceiverStep::HandleText(text),
            Incoming::Close => ReceiverStep::Stop,
            Incoming::Other => ReceiverStep::Continue,
        }
    }

    /// Looks whether the call goes on: it ends with its agent, or when the connection was silent
    /// for too long.
    pub fn on_check(&self, call: &CallContext, now: MonotonicTime) -> (r: ReceiverStep)
        ensures
            r@ == if call@.stopping || self.last_seen().nanos_until(now) > HEARTBEAT_TIMEOUT_NANOS {
                ReceiverStepView::Stop
            } else {
                ReceiverStepView::Continue
            },
    {
        if call.is_stopping() {
            return ReceiverStep::Stop;
        }
        if self.last_heartbeat.elapsed_nanos(now) > HEARTBEAT_TIMEOUT_NANOS {
            ReceiverStep::Stop
        } else {
            ReceiverStep::Continue
        }
    }

    /// What the sender is told when the receiver has ended: send what is held back, then end.
    pub fn farewell() -> (r: Vec<TwilioOutMessage>)
        ensures
            views::of(r@) == seq![OutMessageView::Flush, OutMessageView::Shutdown],
    {
        let mut r: Vec<TwilioOutMessage> = Vec::new();
        r.push(TwilioOutMessage::Flush);
        r.push(TwilioOutMessage::Shutdown);
        assert(views::of(r@) =~= seq![OutMessageView::Flush, OutMessageView::Shutdown]);
        r
    }
}

/// The views of steps, one by one.
proof fn lemma_steps_at(list: Seq<SenderStep>)
    ensures
        views::of(list).len() == list.len(),
        forall|i: int| 0 <= i < list.len() ==> views::of(list)[i] == (#[trigger] list[i])@,
{
}

/// Frames of speech are all sent, in order: while the call goes on and its stream has its name, the
/// payloads of the media messages are the frames, each as base64. When the call is ending the
/// connection is closed instead.
pub proof fn law_speech_is_sent(
    call: &mut CallContext,
    frames: Vec<Vec<u8>>,
    r: Vec<SenderStep>,
)
    requires
        call_ensures(on_out_message, (call, Some(TwilioOutMessage::Audio(frames))), r),
        old(call)@.stream_sid.len() > 0,
    ensures
        !old(call)@.stopping ==> payloads(views::of(r@)) == Seq::new(
            frames@.len(),
            |i: int| encoding::encoded(frames@[i]@),
        ),
        !old(call)@.stopping ==> forall|i: int|
            0 <= i < r@.len() ==> ((#[trigger] r@[i]) is Yield || (r@[i]
                matches SenderStep::SendMedia { message, required } && required
                && message.stream_sid@ == old(call)@.stream_sid && message.event@ == "media"@)),
        old(call)@.stopping ==> r@.len() == 1 && r@[0] is Close,
        final(call)@ == old(call)@,
{
    lemma_steps_at(r@);
    if !old(call)@.stopping {
        let sid = old(call)@.stream_sid;
        let all = views::of(frames@);
        law_every_frame_is_sent(sid, all);
        lemma_frames_go_to_the_stream(sid, all);
        assert(payloads(views::of(r@)) =~= Seq::new(
            frames@.len(),
            |i: int| encoding::encoded(frames@[i]@),
        ));
        assert forall|i: int| 0 <= i < r@.len() implies ((#[trigger] r@[i]) is Yield || (r@[i]
            matches SenderStep::SendMedia { message, required } && required && message.stream_sid@
            == sid && message.event@ == "media"@)) by {
            assert(send_frames(sid, all)[i] == r@[i]@);
        }
    }
}

proof fn lemma_frames_go_to_the_stream(stream_sid: Seq<char>, frames: Seq<Seq<u8>>)
    requires
        stream_sid.len() > 0,
    ensures
        forall|i: int|
            0 <= i < send_frames(stream_sid, frames).len() ==> {
                let step = #[trigger] send_frames(stream_sid, frames)[i];
                step is Yield || exists|payload: Seq<char>|
                    step == (SenderStepView::SendMedia {
                        message: #[trigger] twilio::media(stream_sid, payload),
                        required: true,
                    })
            },
    decreases frames.len(),
{
    if frames.len() > 0 {
        let before = send_frames(stream_sid, frames.drop_last());
        lemma_frames_go_to_the_stream(stream_sid, frames.drop_last());
        assert forall|i: int| 0 <= i < send_frames(stream_sid, frames).len() implies {
            let step = #[trigger] send_frames(stream_sid, frames)[i];
            step is Yield || exists|payload: Seq<char>|
                step == (SenderStepView::SendMedia {
                    message: #[trigger] twilio::media(stream_sid, payload),
                    required: true,
                })
        } by {
            if i < before.len() {
                assert(send_frames(stream_sid, frames)[i] == before[i]);
            } else if i == before.len() {
                let payload = encoding::encoded(frames.last());
                assert(send_frames(stream_sid, frames)[i] == (SenderStepView::SendMedia {
                    message: twilio::media(stream_sid, payload),
                    required: true,
                }));
            }
        }
    }
}

/// The sender drops what the caller is still to hear when it is told to, answers pings with what
/// they carried, sends what is held back at the end, and closes when it is told to end or can no
/// longer be told anything.
pub proof fn law_sender_does_as_told(
    call: &mut CallContext,
    message: Option<TwilioOutMessage>,
    r: Vec<SenderStep>,
)
    requires
        call_ensures(on_out_message, (call, message), r),
        old(call)@.stream_sid.len() > 0,
    ensures
        message matches Some(TwilioOutMessage::Clear) ==> r@.len() == 1 && (r@[0]
            matches SenderStep::SendClear(m) && m.stream_sid@ == old(call)@.stream_sid && m.event@
            == "clear"@),
        message matches Some(TwilioOutMessage::Pong(bytes)) ==> r@.len() == 1 && (r@[0]
            matches SenderStep::SendPong(back) && back@ == bytes@),
        message is None || message->0 is Shutdown ==> r@.len() == 1 && r@[0] is Close,
        message matches Some(TwilioOutMessage::Flush) ==> (r@.len() == 1 <==> old(call)@.held is Some
            && old(call)@.held->0.len() > 0),
        message matches Some(TwilioOutMessage::Flush) ==> forall|i: int|
            0 <= i < r@.len() ==> ((#[trigger] r@[i]) matches SenderStep::SendMedia {
                message: m,
                required: _,
            } && m.stream_sid@ == old(call)@.stream_sid && m.event@ == "media"@
                && m.media.payload@ == encoding::encoded(audio::filled_up(old(call)@.held->0))),
        message matches Some(TwilioOutMessage::Flush) ==> (final(call)@.held matches Some(held)
            ==> held.len() == 0),
        final(call)@.stream_sid == old(call)@.stream_sid,
        final(call)@.agent_started == old(call)@.agent_started,
        final(call)@.stopping == old(call)@.stopping,
{
    lemma_steps_at(r@);
}

/// What fills a frame up is silence, behind all that is to be heard.
pub proof fn law_frames_are_filled_up_with_silence(s: Seq<u8>)
    requires
        s.len() <= 160,
    ensures
        audio::filled_up(s).len() == 160,
        audio::filled_up(s).take(s.len() as int) == s,
        forall|i: int|
            s.len() <= i < 160 ==> crate::ulaw::expanded(#[trigger] audio::filled_up(s)[i]) == 0,
{
    crate::ulaw::law_silence();
    assert(audio::filled_up(s).take(s.len() as int) =~= s);
}

/// What the agent says is played: while the call goes on its samples are all brought to the
/// telephone's rate, each at half its size, and a reset has what waits dropped at the caller's
/// side. When the call is ending the playback ends.
pub proof fn law_agent_is_played(call: &CallContext, message: AudioPlaybackMessage, r: PlaybackStep)
    requires
        call_ensures(on_playback, (call, message), r),
    ensures
        r is Stop <==> call@.stopping,
        !call@.stopping ==> match message {
            AudioPlaybackMessage::Play(samples) => r matches PlaybackStep::Resample(reduced) && {
                &&& reduced@.len() == samples@.len()
                &&& forall|i: int|
                    0 <= i < samples@.len() && samples@[i] >= 0 ==> 2 * (#[trigger] reduced@[i])
                        == samples@[i] || 2 * reduced@[i] == samples@[i] - 1
                &&& forall|i: int|
                    0 <= i < samples@.len() && samples@[i] < 0 ==> 2 * (#[trigger] reduced@[i])
                        == samples@[i] || 2 * reduced@[i] == samples@[i] + 1
            },
            AudioPlaybackMessage::Reset => r matches PlaybackStep::Tell(TwilioOutMessage::Clear),
        },
{
}

/// Speech at the telephone's rate is told to the sender as the frames that it fills, all of them;
/// where it fills none the sender is told nothing.
pub proof fn law_frames_are_told(call: &mut CallContext, samples: &[i16], r: Option<TwilioOutMessage>)
    requires
        call_ensures(on_resampled, (call, samples), r),
        old(call)@.held is Some,
    ensures
        final(call)@.held is Some,
        ({
            let sent = match r {
                Some(TwilioOutMessage::Audio(frames)) => views::of(frames@).flatten(),
                _ => seq![],
            };
            &&& r is None || r->0 is Audio
            &&& sent + final(call)@.held->0 == old(call)@.held->0 + Seq::new(
                samples@.len(),
                |i: int| crate::ulaw::compressed(samples@[i]) as u8,
            )
        }),
        r matches Some(TwilioOutMessage::Audio(frames)) ==> frames@.len() > 0,
{
    let held = old(call)@.held->0;
    let all = held + audio::codes(samples@);
    let n = TWILIO_FRAME_BYTES as nat;
    crate::framing::law_nothing_is_lost(all, n);
    assert(audio::codes(samples@) =~= Seq::new(
        samples@.len(),
        |i: int| crate::ulaw::compressed(samples@[i]) as u8,
    ));
    if r is None {
        assert(crate::framing::frames(all, n) =~= seq![]);
        assert(crate::framing::frames(all, n).flatten() =~= seq![]);
    }
}

/// A ping is due as long as the call goes on; when it is ending the connection is closed.
pub proof fn law_pings_while_the_call_goes_on(call: &CallContext, r: SenderStep)
    requires
        call_ensures(on_ping_due, (call,), r),
    ensures
        call@.stopping ==> r is Close,
        !call@.stopping ==> r is SendPing,
{
}

/// What comes over the connection is heeded: a ping is answered with what it carried, a text is
/// handled as it is, and the end of the connection ends the receiver; nothing else does. Pings and
/// pongs show that the connection is alive.
pub proof fn law_connection_is_heeded(
    rec: &mut Receiver,
    incoming: Incoming,
    now: MonotonicTime,
    r: ReceiverStep,
)
    requires
        call_ensures(Receiver::on_incoming, (rec, incoming, now), r),
    ensures
        incoming matches Incoming::Ping(bytes) ==> (r matches ReceiverStep::Tell(
            TwilioOutMessage::Pong(back),
        ) && back@ == bytes@),
        incoming matches Incoming::Text(text) ==> (r matches ReceiverStep::HandleText(same) && same@
            == text@),
        r is Stop <==> incoming is Close,
        incoming is Pong || incoming is Other ==> r is Continue,
        incoming is Ping || incoming is Pong ==> final(rec).last_seen() == now,
        !(incoming is Ping || incoming is Pong) ==> final(rec).last_seen() == old(rec).last_seen(),
{
}

/// A call ends with its agent, or when the connection was silent for more than thirty seconds, and
/// not before. Then what is held back is sent, and after it the connection closed.
pub proof fn law_silent_call_ends(
    rec: &Receiver,
    call: &CallContext,
    now: MonotonicTime,
    r: ReceiverStep,
    begun: Receiver,
    farewell: Vec<TwilioOutMessage>,
)
    requires
        call_ensures(Receiver::on_check, (rec, call, now), r),
        call_ensures(Receiver::new, (now,), begun),
        call_ensures(Receiver::farewell, (), farewell),
    ensures
        r is Stop <==> call@.stopping || now.nanos > rec.last_seen().nanos + 30_000_000_000,
        !(r is Stop) ==> r is Continue,
        begun.last_seen() == now,
        farewell@.len() == 2,
        farewell@[0] is Flush,
        farewell@[1] is Shutdown,
{
    assert(views::of(farewell@).len() == farewell@.len());
    assert(views::of(farewell@)[0] == farewell@[0]@);
    assert(views::of(farewell@)[1] == farewell@[1]@);
}

/// A call is given up once ten pings went unanswered, and it is looked for that often enough.
pub proof fn law_ten_pings_may_be_missed()
    ensures
        HEARTBEAT_TIMEOUT_NANOS == 10 * TWILIO_PING_INTERVAL_MS * 1_000_000,
        HEARTBEAT_CHECK_INTERVAL_MS * 1_000_000 < HEARTBEAT_TIMEOUT_NANOS,
{
}

/// While frames are sent other tasks are let in, once for every five frames behind the first.
pub proof fn law_others_are_let_in(call: &mut CallContext, frames: Vec<Vec<u8>>, r: Vec<SenderStep>)
    requires
        call_ensures(on_out_message, (call, Some(TwilioOutMessage::Audio(frames))), r),
        old(call)@.stream_sid.len() > 0,
        !old(call)@.stopping,
        frames@.len() > 0,
    ensures
        r@.len() == frames@.len() + (frames@.len() - 1) / 5,
{
    lemma_steps_at(r@);
    lemma_steps_for_frames(old(call)@.stream_sid, views::of(frames@));
}

proof fn lemma_steps_for_frames(stream_sid: Seq<char>, frames: Seq<Seq<u8>>)
    requires
        stream_sid.len() > 0,
    ensures
        frames.len() > 0 ==> send_frames(stream_sid, frames).len() == frames.len() + (frames.len()
            - 1) / 5,
        frames.len() == 0 ==> send_frames(stream_sid, frames).len() == 0,
    decreases frames.len(),
{
    if frames.len() > 0 {
        lemma_steps_for_frames(stream_sid, frames.drop_last());
    }
}

/// Before the stream has its name nothing is sent into it, and nothing is lost by that but what was
/// to be sent.
pub proof fn law_nothing_is_sent_without_a_name(
    call: &mut CallContext,
    message: Option<TwilioOutMessage>,
    r: Vec<SenderStep>,
)
    requires
        call_ensures(on_out_message, (call, message), r),
        old(call)@.stream_sid.len() == 0,
    ensures
        forall|i: int|
            0 <= i < r@.len() ==> !((#[trigger] r@[i]) is SendMedia) && !(r@[i] is SendClear),
{
    lemma_steps_at(r@);
    if let Some(TwilioOutMessage::Audio(frames)) = message {
        lemma_nothing_without_a_name(old(call)@.stream_sid, views::of(frames@));
    }
}

proof fn lemma_nothing_without_a_name(stream_sid: Seq<char>, frames: Seq<Seq<u8>>)
    requires
        stream_sid.len() == 0,
    ensures
        forall|i: int|
            0 <= i < send_frames(stream_sid, frames).len() ==> (#[trigger] send_frames(
                stream_sid,
                frames,
            )[i]) is Yield,
    decreases frames.len(),
{
    if frames.len() > 0 {
        lemma_nothing_without_a_name(stream_sid, frames.drop_last());
    }
}

} // verus!
