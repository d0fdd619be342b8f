//! The connection to speech recognition.

use vstd::prelude::*;
use vstd::string::*;

use crate::clock::MonotonicTime;
use crate::outbox;
use crate::outbox::Outbox;

verus! {

/// The number of pieces of audio beyond which no more are taken in.
pub const MAX_AUDIO_QUEUE_SIZE: usize = 32;

/// Why a request to speech recognition is refused.
#[derive(Debug, Clone, Copy, PartialEq, Eq, Structural)]
pub enum SttHandleError {
    NotConnected,
    AudioQueueFull,
}

impl SttHandleError {
    /// The error in words.
    pub open spec fn text(self) -> Seq<char> {
        match self {
            SttHandleError::NotConnected => "STT client not connected"@,
            SttHandleError::AudioQueueFull => "STT audio queue is full"@,
        }
    }

    /// The error in words.
    pub fn message(self) -> (r: String)
        ensures
            r@ == self.text(),
    {
        match self {
            SttHandleError::NotConnected => "STT client not connected".to_owned(),
            SttHandleError::AudioQueueFull => "STT audio queue is full".to_owned(),
        }
    }
}

/// The mathematical counterpart of an [`SttHandle`].
pub struct SttView {
    /// Whether there is a client.
    pub connected: bool,
    /// When the connection was last known to be alive.
    pub last_ping: MonotonicTime,
    /// Whether the end is final.
    pub final_shutdown: bool,
    /// The audio that waits to be sent.
    pub queue: Seq<Seq<char>>,
}

/// The connection to speech recognition.
pub struct SttHandle {
    connected: bool,
    last_ping: MonotonicTime,
    final_shutdown: bool,
    audio_queue: Outbox,
}

impl View for SttHandle {
    type V = SttView;

    closed spec fn view(&self) -> SttView {
        SttView {
            connected: self.connected,
            last_ping: self.last_ping,
            final_shutdown: self.final_shutdown,
            queue: self.audio_queue@,
        }
    }
}

impl SttHandle {
    /// A handle without a client.
    pub fn new(now: MonotonicTime) -> (r: Self)
        ensures
            r@ == (SttView {
                connected: false,
                last_ping: now,
                final_shutdown: false,
                queue: seq![],
            }),
    {
        let r = SttHandle {
            connected: false,
            last_ping: now,
            final_shutdown: false,
            audio_queue: Outbox::new(),
        };
        assert(r@.queue =~= seq![]);
        r
    }

    /// Takes in what came of the start of a client.
    pub fn connect(&mut self, started: Result<(), String>, now: MonotonicTime) -> (r: Result<
        (),
        String,
    >)
        ensures
            r == started,
            final(self)@ == if started is Ok {
                SttView { connected: true, last_ping: now, ..old(self)@ }
            } else {
                old(self)@
            },
    {
        if started.is_ok() {
            self.connected = true;
            self.last_ping = now;
        }
        started
    }

    /// Lets go of the client, to connect anew: tells whether there is one to shut down. Then a
    /// client is started, and what waits is sent.
    pub fn reconnect(&mut self) -> (r: bool)
        ensures
            r == old(self)@.connected,
            final(self)@ == (SttView { connected: false, ..old(self)@ }),
    {
        let had_client = self.connected;
        self.connected = false;
        had_client
    }

    /// Takes in audio that is to be sent.
    pub fn process(&mut self, audio: &str) -> (r: Result<(), SttHandleError>)
        ensures
            r == if outbox::has_room(old(self)@.queue, MAX_AUDIO_QUEUE_SIZE as nat) {
                Ok::<(), SttHandleError>(())
            } else {
                Err(SttHandleError::AudioQueueFull)
            },
            final(self)@ == (SttView {
                queue: outbox::after(
                    old(self)@.queue,
                    MAX_AUDIO_QUEUE_SIZE as nat,
                    outbox::Happening::Enqueue(audio@),
                ),
                ..old(self)@
            }),
    {
        if self.audio_queue.enqueue(audio, MAX_AUDIO_QUEUE_SIZE) {
            Ok(())
        } else {
            Err(SttHandleError::AudioQueueFull)
        }
    }

    /// Takes out the audio that is to be sent next; without a client none is.
    pub fn next_in_queue(&mut self) -> (r: Option<String>)
        ensures
            match r {
                Some(audio) => {
                    &&& old(self)@.connected
                    &&& old(self)@.queue.len() > 0
                    &&& audio@ == old(self)@.queue[0]
                    &&& final(self)@ == (SttView {
                        queue: old(self)@.queue.drop_first(),
                        ..old(self)@
                    })
                },
                None => {
                    &&& !old(self)@.connected || old(self)@.queue.len() == 0
                    &&& final(self)@ == old(self)@
                },
            },
    {
        if self.connected {
            self.audio_queue.pop()
        } else {
            None
        }
    }

    /// Takes in what came of sending audio that was taken out, and tells whether to go on: audio
    /// that was not sent goes back to where it was.
    pub fn on_sent(&mut self, audio: String, ok: bool) -> (r: bool)
        ensures
            r == ok,
            final(self)@ == if ok {
                old(self)@
            } else {
                SttView { queue: seq![audio@] + old(self)@.queue, ..old(self)@ }
            },
    {
        if !ok {
            self.audio_queue.put_back(audio);
        }
        ok
    }

    /// Whether an event can be waited for.
    pub fn next_event(&self) -> (r: Result<(), SttHandleError>)
        ensures
            r == if self@.connected {
                Ok::<(), SttHandleError>(())
            } else {
                Err(SttHandleError::NotConnected)
            },
    {
        if self.connected {
            Ok(())
        } else {
            Err(SttHandleError::NotConnected)
        }
    }

    /// Takes in that an event came.
    pub fn on_event(&mut self, now: MonotonicTime)
        ensures
            final(self)@ == (SttView { last_ping: now, ..old(self)@ }),
    {
        self.last_ping = now;
    }

    /// Whether recognition can be told that nothing follows.
    pub fn send_eos(&self) -> (r: Result<(), SttHandleError>)
        ensures
            r == if self@.connected {
                Ok::<(), SttHandleError>(())
            } else {
                Err(SttHandleError::NotConnected)
            },
    {
        self.next_event()
    }

    /// Whether a ping can be sent.
    pub fn send_ping(&self) -> (r: Result<(), SttHandleError>)
        ensures
            r == if self@.connected {
                Ok::<(), SttHandleError>(())
            } else {
                Err(SttHandleError::NotConnected)
            },
    {
        self.next_event()
    }

    /// Makes the end final.
    pub fn set_final_shutdown(&mut self)
        ensures
            final(self)@ == (SttView { final_shutdown: true, ..old(self)@ }),
    {
        self.final_shutdown = true;
    }

    /// Whether the end is final.
    pub fn is_final_shutdown(&self) -> (r: bool)
        ensures
            r == self@.final_shutdown,
    {
        self.final_shutdown
    }

    /// Lets go of the client: tells whether there is one to be told that nothing follows, and to
    /// be shut down.
    pub fn shutdown(&mut self) -> (r: bool)
        ensures
            r == old(self)@.connected,
            final(self)@ == (SttView { connected: false, ..old(self)@ }),
    {
        let had_client = self.connected;
        self.connected = false;
        had_client
    }

    /// The nanoseconds since the connection was last known to be alive.
    pub fn time_since_last_ping(&self, now: MonotonicTime) -> (r: u64)
        ensures
            r == self@.last_ping.nanos_until(now),
    {
        self.last_ping.elapsed_nanos(now)
    }
}

/// Audio waits behind that before it, as it is, up to a limit of 32 pieces and one more; it is sent
/// from the front, over a connection that stands, and goes back to the front where it was not sent.
pub proof fn law_audio_waits_for_the_connection(
    h: &mut SttHandle,
    audio: &str,
    r: Result<(), SttHandleError>,
    n: &mut SttHandle,
    next: Option<String>,
    s: &mut SttHandle,
    back: String,
    ok: bool,
    go_on: bool,
)
    requires
        call_ensures(SttHandle::process, (h, audio), r),
        call_ensures(SttHandle::next_in_queue, (n,), next),
        call_ensures(SttHandle::on_sent, (s, back, ok), go_on),
    ensures
        r is Ok <==> old(h)@.queue.len() <= 32,
        r is Ok ==> final(h)@.queue == old(h)@.queue.push(audio@),
        r is Err ==> r->Err_0 == SttHandleError::AudioQueueFull && final(h)@.queue == old(h)@.queue,
        next is Some <==> old(n)@.connected && old(n)@.queue.len() > 0,
        next matches Some(t) ==> t@ == old(n)@.queue[0] && final(n)@.queue == old(n)@.queue.skip(1),
        next is None ==> final(n)@ == old(n)@,
        go_on == ok,
        ok ==> final(s)@ == old(s)@,
        !ok ==> final(s)@.queue.len() == old(s)@.queue.len() + 1 && final(s)@.queue[0] == back@
            && final(s)@.queue.skip(1) == old(s)@.queue,
{
    if next is Some {
        assert(final(n)@.queue =~= old(n)@.queue.skip(1));
    }
    if !ok {
        assert(final(s)@.queue.skip(1) =~= old(s)@.queue);
    }
}

/// A connection is renewed with all that waited: its client is let go and another started.
pub proof fn law_connection_is_renewed(
    a: &mut SttHandle,
    had: bool,
    b: &mut SttHandle,
    now: MonotonicTime,
    started: Result<(), String>,
)
    requires
        call_ensures(SttHandle::reconnect, (a,), had),
        call_ensures(SttHandle::connect, (b, Ok(()), now), started),
        *old(b) == *final(a),
    ensures
        had == old(a)@.connected,
        !final(a)@.connected,
        started is Ok,
        final(b)@.connected,
        final(b)@.last_ping == now,
        final(b)@.queue == old(a)@.queue,
        final(b)@.final_shutdown == old(a)@.final_shutdown,
{
}

/// Without a client nothing can be waited for or sent, and with one everything can; a client that
/// could not be started is none.
pub proof fn law_client_is_needed(
    h: &SttHandle,
    event: Result<(), SttHandleError>,
    ping: Result<(), SttHandleError>,
    eos: Result<(), SttHandleError>,
    a: &mut SttHandle,
    e: String,
    now: MonotonicTime,
    r: Result<(), String>,
)
    requires
        call_ensures(SttHandle::next_event, (h,), event),
        call_ensures(SttHandle::send_ping, (h,), ping),
        call_ensures(SttHandle::send_eos, (h,), eos),
        call_ensures(SttHandle::connect, (a, Err(e), now), r),
    ensures
        event is Ok <==> h@.connected,
        ping is Ok <==> h@.connected,
        eos is Ok <==> h@.connected,
        r matches Err(f) && f@ == e@,
        final(a)@ == old(a)@,
{
}

/// The end is final once it was made so, and the client is let go by a shutdown; neither touches
/// what waits.
pub proof fn law_ends_are_remembered(
    a: &mut SttHandle,
    b: &mut SttHandle,
    had: bool,
    c: &mut SttHandle,
    now: MonotonicTime,
)
    requires
        call_ensures(SttHandle::set_final_shutdown, (a,), ()),
        call_ensures(SttHandle::shutdown, (b,), had),
        call_ensures(SttHandle::on_event, (c, now), ()),
    ensures
        final(a)@.final_shutdown && final(a)@.queue == old(a)@.queue && final(a)@.connected == old(
            a,
        )@.connected,
        had == old(b)@.connected && !final(b)@.connected && final(b)@.queue == old(b)@.queue,
        final(c)@.last_ping == now && final(c)@.queue == old(c)@.queue,
{
}

/// A handle begins without a client and with nothing waiting, and says of itself what it is.
pub proof fn law_handle_begins(
    now: MonotonicTime,
    fresh: SttHandle,
    h: &SttHandle,
    final_shutdown: bool,
    since: u64,
)
    requires
        call_ensures(SttHandle::new, (now,), fresh),
        call_ensures(SttHandle::is_final_shutdown, (h,), final_shutdown),
        call_ensures(SttHandle::time_since_last_ping, (h, now), since),
    ensures
        !fresh@.connected && !fresh@.final_shutdown,
        fresh@.queue.len() == 0,
        fresh@.last_ping == now,
        final_shutdown == h@.final_shutdown,
        h@.last_ping.nanos <= now.nanos ==> h@.last_ping.nanos + since == now.nanos,
{
}

} // verus!
