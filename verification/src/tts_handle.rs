//! The connection to speech synthesis.

use vstd::prelude::*;
use vstd::string::*;

use crate::clock::MonotonicTime;
use crate::outbox;
use crate::outbox::Outbox;

verus! {

/// The number of texts beyond which no more are taken in.
pub const MAX_TEXT_QUEUE_SIZE: usize = 64;

/// The length of the naps that a sleep is made of.
pub const ROUND_DELAY_MS: u64 = 100;

/// Why a request to speech synthesis is refused.
#[derive(Debug, Clone, Copy, PartialEq, Eq, Structural)]
pub enum TtsHandleError {
    NotConnected,
    TextQueueFull,
    FinalShutdown,
}

impl TtsHandleError {
    /// The error in words.
    pub open spec fn text(self) -> Seq<char> {
        match self {
            TtsHandleError::NotConnected => "TTS client not connected"@,
            TtsHandleError::TextQueueFull => "TTS text queue is full"@,
            TtsHandleError::FinalShutdown => "TTS final shutdown"@,
        }
    }

    /// The error in words.
    pub fn message(self) -> (r: String)
        ensures
            r@ == self.text(),
    {
        match self {
            TtsHandleError::NotConnected => "TTS client not connected".to_owned(),
            TtsHandleError::TextQueueFull => "TTS text queue is full".to_owned(),
            TtsHandleError::FinalShutdown => "TTS final shutdown".to_owned(),
        }
    }
}

/// The mathematical counterpart of a [`TtsHandle`].
pub struct TtsView {
    /// Whether there is a client.
    pub connected: bool,
    /// When the connection was last known to be alive.
    pub last_ping: MonotonicTime,
    /// Whether the end is final.
    pub final_shutdown: bool,
    /// The texts that wait to be sent.
    pub queue: Seq<Seq<char>>,
    /// The number of texts that were sent over the present connection.
    pub inflight: usize,
    /// Whether the connection is being renewed.
    pub reconnecting: bool,
}

/// The connection to speech synthesis.
pub struct TtsHandle {
    connected: bool,
    last_ping: MonotonicTime,
    final_shutdown: bool,
    text_queue: Outbox,
    inflight_requests: usize,
    reconnecting: bool,
}

impl View for TtsHandle {
    type V = TtsView;

    closed spec fn view(&self) -> TtsView {
        TtsView {
            connected: self.connected,
            last_ping: self.last_ping,
            final_shutdown: self.final_shutdown,
            queue: self.text_queue@,
            inflight: self.inflight_requests,
            reconnecting: self.reconnecting,
        }
    }
}

impl TtsView {
    /// The handle once a client was started: nothing was sent over its connection yet.
    pub open spec fn with_client(self, now: MonotonicTime) -> TtsView {
        TtsView { connected: true, last_ping: now, inflight: 0, ..self }
    }

    /// The handle once its renewal was begun.
    pub open spec fn renewing(self) -> TtsView {
        TtsView { connected: false, reconnecting: true, ..self }
    }

    /// The handle once its renewal was completed.
    pub open spec fn renewed(self) -> TtsView {
        TtsView { reconnecting: false, ..self }
    }
}

/// After a cancellation with texts on their way, nothing of them is left: neither waiting nor on
/// its way over the new connection.
pub proof fn law_cancellation_leaves_nothing(h: TtsView, now: MonotonicTime)
    ensures
        ({
            let cancelled = (TtsView { queue: seq![], ..h }).renewing().with_client(now).renewed();
            &&& cancelled.queue.len() == 0
            &&& cancelled.inflight == 0
            &&& cancelled.connected
            &&& !cancelled.reconnecting
            &&& cancelled.final_shutdown == h.final_shutdown
        }),
{
}

impl TtsHandle {
    /// A handle without a client.
    pub fn new(now: MonotonicTime) -> (r: Self)
        ensures
            r@ == (TtsView {
                connected: false,
                last_ping: now,
                final_shutdown: false,
                queue: seq![],
                inflight: 0,
                reconnecting: false,
            }),
    {
        let r = TtsHandle {
            connected: false,
            last_ping: now,
            final_shutdown: false,
            text_queue: Outbox::new(),
            inflight_requests: 0,
            reconnecting: false,
        };
        assert(r@.queue =~= seq![]);
        r
    }

    /// Takes in what came of the start of a client.
    pub fn connect(&mut self, started: Result<(), String>, now: MonotonicTime) -> (r: Result<
        (),
        String,
    >)
        ensures
            r == started,
            final(self)@ == if started is Ok {
                old(self)@.with_client(now)
            } else {
                old(self)@
            },
    {
        if started.is_ok() {
            self.connected = true;
            self.inflight_requests = 0;
            self.last_ping = now;
        }
        started
    }

    /// Lets go of the client, to connect anew: tells whether there is one to shut down. Then a
    /// client is started, what waits is sent, and the renewal is completed. Once the end is final
    /// nothing is renewed.
    pub fn reconnect(&mut self) -> (r: Result<bool, TtsHandleError>)
        ensures
            r == if old(self)@.final_shutdown {
                Err(TtsHandleError::FinalShutdown)
            } else {
                Ok::<bool, TtsHandleError>(old(self)@.connected)
            },
            final(self)@ == if old(self)@.final_shutdown {
                old(self)@
            } else {
                old(self)@.renewing()
            },
    {
        if self.final_shutdown {
            return Err(TtsHandleError::FinalShutdown);
        }
        let had_client = self.connected;
        self.reconnecting = true;
        self.connected = false;
        Ok(had_client)
    }

    /// Completes a renewal; it was in vain where the end has become final meanwhile.
    pub fn finish_reconnect(&mut self) -> (r: Result<(), TtsHandleError>)
        ensures
            r == if old(self)@.final_shutdown {
                Err(TtsHandleError::FinalShutdown)
            } else {
                Ok::<(), TtsHandleError>(())
            },
            final(self)@ == old(self)@.renewed(),
    {
        self.reconnecting = false;
        if self.final_shutdown {
            Err(TtsHandleError::FinalShutdown)
        } else {
            Ok(())
        }
    }

    /// Takes the connection to be in need of renewal.
    pub fn set_reconnecting(&mut self)
        ensures
            final(self)@ == (TtsView { reconnecting: true, ..old(self)@ }),
    {
        self.reconnecting = true;
    }

    /// Whether the connection is being renewed.
    pub fn is_reconnecting(&self) -> (r: bool)
        ensures
            r == self@.reconnecting,
    {
        self.reconnecting
    }

    /// Cancels the texts that are on their way: tells whether there are any, so that the
    /// connection is to be renewed. Those that wait are dropped with them.
    pub fn cancel(&mut self) -> (r: bool)
        ensures
            r == (old(self)@.inflight > 0),
            final(self)@ == if old(self)@.inflight > 0 {
                TtsView { queue: seq![], ..old(self)@ }
            } else {
                old(self)@
            },
    {
        if self.inflight_requests > 0 {
            self.text_queue.clear();
            assert(self@.queue =~= seq![]);
            true
        } else {
            false
        }
    }

    /// Takes in a text that is to be spoken.
    pub fn process(&mut self, text: &str) -> (r: Result<(), TtsHandleError>)
        ensures
            r == if outbox::has_room(old(self)@.queue, MAX_TEXT_QUEUE_SIZE as nat) {
                Ok::<(), TtsHandleError>(())
            } else {
                Err(TtsHandleError::TextQueueFull)
            },
            final(self)@ == (TtsView {
                queue: outbox::after(
                    old(self)@.queue,
                    MAX_TEXT_QUEUE_SIZE as nat,
                    outbox::Happening::Enqueue(text@),
                ),
                ..old(self)@
            }),
    {
        if self.text_queue.enqueue(text, MAX_TEXT_QUEUE_SIZE) {
            Ok(())
        } else {
            Err(TtsHandleError::TextQueueFull)
        }
    }

    /// Takes out the text that is to be sent next; without a client none is.
    pub fn next_in_queue(&mut self) -> (r: Option<String>)
        ensures
            match r {
                Some(text) => {
                    &&& old(self)@.connected
                    &&& old(self)@.queue.len() > 0
                    &&& text@ == old(self)@.queue[0]
                    &&& final(self)@ == (TtsView {
                        queue: old(self)@.queue.drop_first(),
                        ..old(self)@
                    })
                },
                None => {
                    &&& !old(self)@.connected || old(self)@.queue.len() == 0
                    &&& final(self)@ == old(self)@
                },
            },
    {
        if self.connected {
            self.text_queue.pop()
        } else {
            None
        }
    }

    /// Takes in what came of sending a text that was taken out, and tells whether to go on: a text
    /// that was sent is counted, one that was not goes back to where it was.
    pub fn on_sent(&mut self, text: String, ok: bool) -> (r: bool)
        ensures
            r == ok,
            final(self)@ == if ok {
                TtsView {
                    inflight: vstd::wrapping::usize_specs::wrapping_add(
                        old(self)@.inflight,
                        1,
                    ),
                    ..old(self)@
                }
            } else {
                TtsView { queue: seq![text@] + old(self)@.queue, ..old(self)@ }
            },
    {
        if ok {
            self.inflight_requests = self.inflight_requests.wrapping_add(1);
        } else {
            self.text_queue.put_back(text);
        }
        ok
    }

    /// Whether an event can be waited for.
    pub fn next_event(&self) -> (r: Result<(), TtsHandleError>)
        ensures
            r == if self@.connected {
                Ok::<(), TtsHandleError>(())
            } else {
                Err(TtsHandleError::NotConnected)
            },
    {
        if self.connected {
            Ok(())
        } else {
            Err(TtsHandleError::NotConnected)
        }
    }

    /// Takes in that an event came.
    pub fn on_event(&mut self, now: MonotonicTime)
        ensures
            final(self)@ == (TtsView { last_ping: now, ..old(self)@ }),
    {
        self.last_ping = now;
    }

    /// Whether a ping can be sent.
    pub fn send_ping(&self) -> (r: Result<(), TtsHandleError>)
        ensures
            r == if self@.connected {
                Ok::<(), TtsHandleError>(())
            } else {
                Err(TtsHandleError::NotConnected)
            },
    {
        self.next_event()
    }

    /// Whether synthesis can be told that nothing follows.
    pub fn send_eos(&self) -> (r: Result<(), TtsHandleError>)
        ensures
            r == if self@.connected {
                Ok::<(), TtsHandleError>(())
            } else {
                Err(TtsHandleError::NotConnected)
            },
    {
        self.next_event()
    }

    /// Lets go of the client: tells whether there is one to be shut down.
    pub fn shutdown(&mut self) -> (r: bool)
        ensures
            r == old(self)@.connected,
            final(self)@ == (TtsView { connected: false, ..old(self)@ }),
    {
        let had_client = self.connected;
        self.connected = false;
        had_client
    }

    /// Makes the end final.
    pub fn set_final_shutdown(&mut self)
        ensures
            final(self)@ == (TtsView { final_shutdown: true, ..old(self)@ }),
    {
        self.final_shutdown = true;
    }

    /// Whether the end is final.
    pub fn is_final_shutdown(&self) -> (r: bool)
        ensures
            r == self@.final_shutdown,
    {
        self.final_shutdown
    }

    /// The number of texts that were sent over the present connection.
    pub fn inflight_requests(&self) -> (r: usize)
        ensures
            r == self@.inflight,
    {
        self.inflight_requests
    }

    /// A sleep of the given length.
    pub fn sleep(delay_ms: u64) -> (r: Sleep)
        ensures
            r.rounds() == delay_ms / ROUND_DELAY_MS,
    {
        Sleep { rounds: delay_ms / ROUND_DELAY_MS }
    }

    /// The nanoseconds since the connection was last known to be alive.
    pub fn time_since_last_ping(&self, now: MonotonicTime) -> (r: u64)
        ensures
            r == self@.last_ping.nanos_until(now),
    {
        self.last_ping.elapsed_nanos(now)
    }
}

/// A sleep that is made of naps, so that it ends early once the end is final.
pub struct Sleep {
    rounds: u64,
}

impl Sleep {
    /// The number of naps that are left.
    pub closed spec fn rounds(&self) -> nat {
        self.rounds as nat
    }

    /// The length of the next nap, where one is left.
    pub fn next_nap_ms(&self) -> (r: Option<u64>)
        ensures
            r == if self.rounds() > 0 {
                Some(ROUND_DELAY_MS)
            } else {
                None
            },
    {
        if self.rounds > 0 {
            Some(ROUND_DELAY_MS)
        } else {
            None
        }
    }

    /// Takes in that a nap is over.
    pub fn on_nap(&mut self, final_shutdown: bool) -> (r: Result<(), TtsHandleError>)
        ensures
            r == if final_shutdown {
                Err(TtsHandleError::FinalShutdown)
            } else {
                Ok::<(), TtsHandleError>(())
            },
            final(self).rounds() == if old(self).rounds() > 0 {
                (old(self).rounds() - 1) as nat
            } else {
                0
            },
    {
        if self.rounds > 0 {
            self.rounds = self.rounds - 1;
        }
        if final_shutdown {
            Err(TtsHandleError::FinalShutdown)
        } else {
            Ok(())
        }
    }
}

/// The naps of a sleep never last longer than was asked for, and fall short of it by less than one.
pub proof fn law_naps_fill_the_sleep(delay_ms: u64)
    ensures
        (delay_ms / ROUND_DELAY_MS) * ROUND_DELAY_MS <= delay_ms,
        delay_ms < (delay_ms / ROUND_DELAY_MS) * ROUND_DELAY_MS + ROUND_DELAY_MS,
{
}

/// A text that is to be spoken waits behind those before it, as it is, up to a limit of 64 and one
/// more; it goes on waiting while the connection is renewed, and what waits is sent from the front,
/// over a connection that stands.
pub proof fn law_texts_wait_for_the_connection(
    h: &mut TtsHandle,
    text: &str,
    r: Result<(), TtsHandleError>,
    n: &mut TtsHandle,
    next: Option<String>,
)
    requires
        call_ensures(TtsHandle::process, (h, text), r),
        call_ensures(TtsHandle::next_in_queue, (n,), next),
    ensures
        r is Ok <==> old(h)@.queue.len() <= 64,
        r is Ok ==> final(h)@.queue == old(h)@.queue.push(text@),
        r is Err ==> r->Err_0 == TtsHandleError::TextQueueFull && final(h)@.queue == old(h)@.queue,
        final(h)@ == (TtsView { queue: final(h)@.queue, ..old(h)@ }),
        next is Some <==> old(n)@.connected && old(n)@.queue.len() > 0,
        next matches Some(t) ==> t@ == old(n)@.queue[0] && final(n)@.queue == old(n)@.queue.skip(1),
        next is None ==> final(n)@ == old(n)@,
        final(n)@ == (TtsView { queue: final(n)@.queue, ..old(n)@ }),
{
    if next is Some {
        assert(final(n)@.queue =~= old(n)@.queue.skip(1));
    }
}

/// A text that was sent is counted as on its way, and one that was not goes back to the front.
pub proof fn law_sent_texts_are_counted(h: &mut TtsHandle, text: String, ok: bool, r: bool)
    requires
        call_ensures(TtsHandle::on_sent, (h, text, ok), r),
    ensures
        r == ok,
        ok && old(h)@.inflight < usize::MAX ==> final(h)@.inflight == old(h)@.inflight + 1,
        ok ==> final(h)@.queue == old(h)@.queue,
        !ok ==> final(h)@.queue.len() == old(h)@.queue.len() + 1 && final(h)@.queue[0] == text@
            && final(h)@.queue.skip(1) == old(h)@.queue,
        !ok ==> final(h)@.inflight == old(h)@.inflight,
        final(h)@.connected == old(h)@.connected,
{
    if !ok {
        assert(final(h)@.queue.skip(1) =~= old(h)@.queue);
    }
}

/// Speech can be cancelled: where any text is on its way the connection is to be renewed, and
/// nothing waits any more. Where none is, nothing changes.
pub proof fn law_speech_is_cancelled(h: &mut TtsHandle, r: bool)
    requires
        call_ensures(TtsHandle::cancel, (h,), r),
    ensures
        r <==> old(h)@.inflight > 0,
        r ==> final(h)@.queue.len() == 0,
        !r ==> final(h)@ == old(h)@,
        final(h)@ == (TtsView { queue: final(h)@.queue, ..old(h)@ }),
{
}

/// A connection is renewed unless the end is final: its client is let go, another is started, and
/// then it stands, with nothing on its way and with all that waited before. Where the end is final
/// nothing is begun.
pub proof fn law_connection_is_renewed(
    a: &mut TtsHandle,
    begun: Result<bool, TtsHandleError>,
    b: &mut TtsHandle,
    now: MonotonicTime,
    started: Result<(), String>,
    c: &mut TtsHandle,
    done: Result<(), TtsHandleError>,
)
    requires
        call_ensures(TtsHandle::reconnect, (a,), begun),
        call_ensures(TtsHandle::connect, (b, Ok(()), now), started),
        call_ensures(TtsHandle::finish_reconnect, (c,), done),
        *old(b) == *final(a),
        *old(c) == *final(b),
    ensures
        begun is Err <==> old(a)@.final_shutdown,
        begun is Err ==> final(a)@ == old(a)@,
        begun is Ok ==> begun->Ok_0 == old(a)@.connected && !final(a)@.connected
            && final(a)@.reconnecting,
        started is Ok,
        final(b)@.connected && final(b)@.inflight == 0 && final(b)@.last_ping == now,
        begun is Ok ==> done is Ok && final(c)@.connected && !final(c)@.reconnecting
            && final(c)@.inflight == 0 && final(c)@.queue == old(a)@.queue,
        final(c)@.queue == old(a)@.queue,
        final(c)@.final_shutdown == old(a)@.final_shutdown,
{
}

/// A client that could not be started changes nothing, and the failure is handed on.
pub proof fn law_failed_start_changes_nothing(
    h: &mut TtsHandle,
    e: String,
    now: MonotonicTime,
    r: Result<(), String>,
)
    requires
        call_ensures(TtsHandle::connect, (h, Err(e), now), r),
    ensures
        r matches Err(f) && f@ == e@,
        final(h)@ == old(h)@,
{
}

/// Without a client nothing can be waited for or sent, and with one everything can.
pub proof fn law_client_is_needed(
    h: &TtsHandle,
    event: Result<(), TtsHandleError>,
    ping: Result<(), TtsHandleError>,
    eos: Result<(), TtsHandleError>,
)
    requires
        call_ensures(TtsHandle::next_event, (h,), event),
        call_ensures(TtsHandle::send_ping, (h,), ping),
        call_ensures(TtsHandle::send_eos, (h,), eos),
    ensures
        event is Ok <==> h@.connected,
        ping is Ok <==> h@.connected,
        eos is Ok <==> h@.connected,
        event is Err ==> event->Err_0 == TtsHandleError::NotConnected,
{
}

/// The end is final once it was made so, the client is let go by a shutdown, and the need of a
/// renewal is remembered; none of these touches what waits.
pub proof fn law_ends_are_remembered(
    a: &mut TtsHandle,
    b: &mut TtsHandle,
    had: bool,
    c: &mut TtsHandle,
    d: &mut TtsHandle,
    now: MonotonicTime,
)
    requires
        call_ensures(TtsHandle::set_final_shutdown, (a,), ()),
        call_ensures(TtsHandle::shutdown, (b,), had),
        call_ensures(TtsHandle::set_reconnecting, (c,), ()),
        call_ensures(TtsHandle::on_event, (d, now), ()),
    ensures
        final(a)@.final_shutdown && final(a)@.queue == old(a)@.queue && final(a)@.connected == old(
            a,
        )@.connected,
        had == old(b)@.connected && !final(b)@.connected && final(b)@.queue == old(b)@.queue,
        final(c)@.reconnecting && final(c)@.queue == old(c)@.queue,
        final(d)@.last_ping == now && final(d)@.queue == old(d)@.queue,
{
}

/// A sleep takes one nap of a tenth of a second for each that the delay holds, and ends with an
/// error as soon as the end is final.
pub proof fn law_sleep_naps(
    delay_ms: u64,
    begun: Sleep,
    s: &mut Sleep,
    final_shutdown: bool,
    r: Result<(), TtsHandleError>,
    t: &Sleep,
    nap: Option<u64>,
)
    requires
        call_ensures(TtsHandle::sleep, (delay_ms,), begun),
        call_ensures(Sleep::on_nap, (s, final_shutdown), r),
        call_ensures(Sleep::next_nap_ms, (t,), nap),
    ensures
        begun.rounds() * 100 <= delay_ms,
        delay_ms < begun.rounds() * 100 + 100,
        r is Err <==> final_shutdown,
        old(s).rounds() > 0 ==> final(s).rounds() + 1 == old(s).rounds(),
        nap is Some <==> t.rounds() > 0,
        nap is Some ==> nap->0 == 100,
{
}

/// A handle begins without a client, with nothing waiting and nothing on its way.
pub proof fn law_handle_begins(now: MonotonicTime, h: TtsHandle)
    requires
        call_ensures(TtsHandle::new, (now,), h),
    ensures
        !h@.connected && !h@.final_shutdown && !h@.reconnecting,
        h@.queue.len() == 0,
        h@.inflight == 0,
        h@.last_ping == now,
{
}

/// What a handle says of itself is what it is.
pub proof fn law_handle_tells_its_state(
    h: &TtsHandle,
    reconnecting: bool,
    final_shutdown: bool,
    inflight: usize,
    now: MonotonicTime,
    since: u64,
)
    requires
        call_ensures(TtsHandle::is_reconnecting, (h,), reconnecting),
        call_ensures(TtsHandle::is_final_shutdown, (h,), final_shutdown),
        call_ensures(TtsHandle::inflight_requests, (h,), inflight),
        call_ensures(TtsHandle::time_since_last_ping, (h, now), since),
    ensures
        reconnecting == h@.reconnecting,
        final_shutdown == h@.final_shutdown,
        inflight == h@.inflight,
        h@.last_ping.nanos <= now.nanos ==> h@.last_ping.nanos + since == now.nanos,
{
}

} // verus!
