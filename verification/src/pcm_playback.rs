//! Audio that waits to be played.

use std::collections::VecDeque;

use vstd::prelude::*;
use vstd::string::*;

verus! {

/// What the playback is told from elsewhere.
#[derive(Debug, Clone, Copy, PartialEq, Eq, Structural)]
pub enum PlaybackCommand {
    Stop,
    Start,
}

/// `std::sync::mpsc::Sender`: the sending half of a channel.
#[verifier::external_type_specification]
#[verifier::external_body]
#[verifier::reject_recursive_types(T)]
pub struct ExSender<T>(std::sync::mpsc::Sender<T>);

/// `std::sync::mpsc::Sender::send`: whether the command was put into the channel. That depends on
/// whether the receiver still exists, so nothing is said of it.
#[verifier::external_body]
fn send(channel: &std::sync::mpsc::Sender<PlaybackCommand>, command: PlaybackCommand) -> (r: bool) {
    channel.send(command).is_ok()
}

/// Whether `sent` is what comes of sending `command` into `channel`.
pub closed spec fn sends(
    channel: std::sync::mpsc::Sender<PlaybackCommand>,
    command: PlaybackCommand,
    sent: bool,
) -> bool {
    call_ensures(send, (&channel, command), sent)
}

/// `std::sync::mpsc::Sender::clone`: another sender into the same channel.
#[verifier::external_body]
fn share(channel: &std::sync::mpsc::Sender<PlaybackCommand>) -> (r: std::sync::mpsc::Sender<
    PlaybackCommand,
>) {
    channel.clone()
}

/// Whether `other` is what comes of cloning `channel`, and so sends into the same channel.
pub closed spec fn shares(
    channel: std::sync::mpsc::Sender<PlaybackCommand>,
    other: std::sync::mpsc::Sender<PlaybackCommand>,
) -> bool {
    call_ensures(share, (&channel,), other)
}

/// The commands that restart a playback, in order.
pub fn restart_commands() -> (r: [PlaybackCommand; 2])
    ensures
        r@ == seq![PlaybackCommand::Stop, PlaybackCommand::Start],
{
    let r = [PlaybackCommand::Stop, PlaybackCommand::Start];
    assert(r@ =~= seq![PlaybackCommand::Stop, PlaybackCommand::Start]);
    r
}

/// Whether the command to stop was sent into `channel`, whatever came of it.
pub open spec fn told_to_stop(channel: std::sync::mpsc::Sender<PlaybackCommand>) -> bool {
    exists|sent: bool| #[trigger] sends(channel, PlaybackCommand::Stop, sent)
}

/// A channel that the command to stop was sent into before it was handed out.
struct StoppedChannel<'a> {
    channel: &'a std::sync::mpsc::Sender<PlaybackCommand>,
}

impl<'a> StoppedChannel<'a> {
    /// The command was sent: without that there is no such channel.
    #[verifier::type_invariant]
    spec fn was_told_to_stop(self) -> bool {
        told_to_stop(*self.channel)
    }

    /// Sends the command, and passes over whether it got through.
    fn stop(channel: &'a std::sync::mpsc::Sender<PlaybackCommand>, command: PlaybackCommand) -> (r:
        Self)
        requires
            command == PlaybackCommand::Stop,
        ensures
            r.channel == channel,
            told_to_stop(*channel),
    {
        let _sent: bool = send(channel, command);
        assert(sends(*channel, PlaybackCommand::Stop, _sent));
        assert(told_to_stop(*channel));
        StoppedChannel { channel }
    }

    /// Sends a command behind the one to stop.
    fn send_next(&self, command: PlaybackCommand) -> (r: bool)
        ensures
            sends(*self.channel, command, r),
    {
        send(self.channel, command)
    }
}

/// Whether `sent` is what comes of sending `command` into `channel` behind the command to stop.
pub closed spec fn sends_after_stop(
    channel: std::sync::mpsc::Sender<PlaybackCommand>,
    command: PlaybackCommand,
    sent: bool,
) -> bool {
    &&& sends(channel, command, sent)
    &&& call_ensures(
        StoppedChannel::send_next,
        (&(StoppedChannel { channel: &channel }), command),
        sent,
    )
}

/// What comes of a restart, by whether the last of its commands got through.
pub fn restart_outcome(start_sent: bool) -> (r: Result<(), String>)
    ensures
        start_sent ==> r is Ok,
        !start_sent ==> r is Err && r->Err_0@ == "playback command channel closed"@,
{
    if start_sent {
        Ok(())
    } else {
        Err("playback command channel closed".to_owned())
    }
}

/// The control of a playback from elsewhere.
pub struct PcmPlaybackController {
    command_tx: std::sync::mpsc::Sender<PlaybackCommand>,
}

impl PcmPlaybackController {
    /// The channel that commands are sent through.
    pub closed spec fn channel(&self) -> std::sync::mpsc::Sender<PlaybackCommand> {
        self.command_tx
    }

    /// Control through the given channel.
    pub fn new(command_tx: std::sync::mpsc::Sender<PlaybackCommand>) -> (r: Self)
        ensures
            r.channel() == command_tx,
    {
        PcmPlaybackController { command_tx }
    }

    /// Restarts the playback: sends the command to stop, then the command to start, and succeeds
    /// where the latter gets through.
    pub fn restart(&self) -> (r: Result<(), String>)
        ensures
            told_to_stop(self.channel()),
            sends_after_stop(self.channel(), PlaybackCommand::Start, r is Ok),
            r is Err ==> r->Err_0@ == "playback command channel closed"@,
    {
        let commands = restart_commands();
        let stopped = StoppedChannel::stop(&self.command_tx, commands[0]);
        let start_sent: bool = stopped.send_next(commands[1]);
        restart_outcome(start_sent)
    }
}

impl Clone for PcmPlaybackController {
    /// Control of the same playback, through the same channel.
    fn clone(&self) -> (r: Self)
        ensures
            shares(self.channel(), r.channel()),
    {
        PcmPlaybackController { command_tx: share(&self.command_tx) }
    }
}

/// The mathematical counterpart of a [`PcmPlayback`].
pub struct PlaybackState {
    /// The samples that wait to be played.
    pub queue: Seq<i16>,
    /// Whether the playback is stopped.
    pub stopped: bool,
    /// Whether samples are still taken in.
    pub consuming: bool,
}

/// The next `n` samples of a queue, silence where it ends.
pub open spec fn played(queue: Seq<i16>, n: nat) -> Seq<i16> {
    Seq::new(
        n,
        |i: int|
            if i < queue.len() {
                queue[i]
            } else {
                0i16
            },
    )
}

/// What is left of a queue once `n` samples were played.
pub open spec fn left(queue: Seq<i16>, n: nat) -> Seq<i16> {
    if n < queue.len() {
        queue.skip(n as int)
    } else {
        seq![]
    }
}

/// How many samples are asked for at a time does not matter for what is played.
pub proof fn law_requests_do_not_matter(queue: Seq<i16>, n: nat, m: nat)
    ensures
        played(queue, n + m) == played(queue, n) + played(left(queue, n), m),
        left(queue, n + m) == left(left(queue, n), m),
{
    assert(played(queue, n + m) =~= played(queue, n) + played(left(queue, n), m));
    assert(left(queue, n + m) =~= left(left(queue, n), m));
}

impl PlaybackState {
    /// The playback after a command.
    pub open spec fn after(self, command: PlaybackCommand) -> PlaybackState {
        match command {
            PlaybackCommand::Stop => PlaybackState { queue: seq![], stopped: true, ..self },
            PlaybackCommand::Start => PlaybackState { stopped: false, ..self },
        }
    }

    /// The playback after several commands.
    pub open spec fn after_all(self, commands: Seq<PlaybackCommand>) -> PlaybackState
        decreases commands.len(),
    {
        if commands.len() == 0 {
            self
        } else {
            self.after_all(commands.drop_last()).after(commands.last())
        }
    }
}

/// A restart drops what was waiting, and leaves the playback running.
pub proof fn law_restart_drops_what_waits(p: PlaybackState)
    ensures
        p.after_all(seq![PlaybackCommand::Stop, PlaybackCommand::Start]) == (PlaybackState {
            queue: seq![],
            stopped: false,
            ..p
        }),
{
    let commands = seq![PlaybackCommand::Stop, PlaybackCommand::Start];
    assert(commands.drop_last() =~= seq![PlaybackCommand::Stop]);
    assert(seq![PlaybackCommand::Stop].drop_last() =~= seq![]);
    reveal_with_fuel(PlaybackState::after_all, 3);
}

/// Audio that waits to be played.
pub struct PcmPlayback {
    queue: VecDeque<i16>,
    stopped: bool,
    consuming: bool,
}

impl View for PcmPlayback {
    type V = PlaybackState;

    closed spec fn view(&self) -> PlaybackState {
        PlaybackState { queue: self.queue@, stopped: self.stopped, consuming: self.consuming }
    }
}

impl PcmPlayback {
    /// A playback for which nothing waits.
    pub fn new() -> (r: Self)
        ensures
            r@ == (PlaybackState { queue: seq![], stopped: false, consuming: true }),
    {
        let r = PcmPlayback { queue: VecDeque::new(), stopped: false, consuming: true };
        assert(r@.queue =~= seq![]);
        r
    }

    /// Takes in samples, and tells whether to go on: samples that come while the playback is
    /// stopped are dropped, and none are taken in after them.
    pub fn on_chunk(&mut self, chunk: Vec<i16>) -> (r: bool)
        ensures
            r == (old(self)@.consuming && !old(self)@.stopped),
            final(self)@ == if r {
                PlaybackState { queue: old(self)@.queue + chunk@, ..old(self)@ }
            } else {
                PlaybackState { consuming: false, ..old(self)@ }
            },
    {
        if !self.consuming || self.stopped {
            self.consuming = false;
            return false;
        }
        let ghost before = self@;
        let n: usize = chunk.len();
        let mut i: usize = 0;
        while i < n
            invariant
                i <= n,
                n == chunk@.len(),
                self@ == (PlaybackState { queue: self@.queue, ..before }),
                self@.queue == before.queue + chunk@.take(i as int),
            decreases n - i,
        {
            self.queue.push_back(chunk[i]);
            assert(before.queue + chunk@.take(i + 1) =~= (before.queue + chunk@.take(
                i as int,
            )).push(chunk@[i as int]));
            i = i + 1;
        }
        assert(chunk@.take(n as int) =~= chunk@);
        true
    }

    /// Hands out the next `n` samples to be played.
    pub fn fill(&mut self, n: usize) -> (r: Vec<i16>)
        ensures
            r@ == if old(self)@.stopped {
                played(seq![], n as nat)
            } else {
                played(old(self)@.queue, n as nat)
            },
            final(self)@ == if old(self)@.stopped {
                old(self)@
            } else {
                PlaybackState { queue: left(old(self)@.queue, n as nat), ..old(self)@ }
            },
    {
        let mut r: Vec<i16> = Vec::new();
        let ghost before = self@;
        let ghost source = if before.stopped {
            seq![]
        } else {
            before.queue
        };
        assert(left(before.queue, 0) =~= before.queue);
        let mut i: usize = 0;
        while i < n
            invariant
                i <= n,
                source == if before.stopped {
                    Seq::<i16>::empty()
                } else {
                    before.queue
                },
                r@ == played(source, i as nat),
                self@ == if before.stopped {
                    before
                } else {
                    PlaybackState { queue: left(before.queue, i as nat), ..before }
                },
            decreases n - i,
        {
            let sample: i16 = if self.stopped {
                0
            } else {
                match self.queue.pop_front() {
                    Some(s) => s,
                    None => 0,
                }
            };
            r.push(sample);
            assert(played(source, (i + 1) as nat) =~= played(source, i as nat).push(sample));
            assert(!before.stopped ==> self@.queue =~= left(before.queue, (i + 1) as nat));
            i = i + 1;
        }
        r
    }

    /// Carries out the commands that have come, in order.
    pub fn process_commands(&mut self, commands: &[PlaybackCommand])
        ensures
            final(self)@ == old(self)@.after_all(commands@),
    {
        let ghost before = self@;
        let n: usize = commands.len();
        let mut i: usize = 0;
        while i < n
            invariant
                i <= n,
                n == commands@.len(),
                self@ == before.after_all(commands@.take(i as int)),
            decreases n - i,
        {
            assert(commands@.take(i + 1).drop_last() =~= commands@.take(i as int));
            match commands[i] {
                PlaybackCommand::Stop => self.stop(),
                PlaybackCommand::Start => self.start(),
            }
            i = i + 1;
        }
        assert(commands@.take(n as int) =~= commands@);
    }

    /// Starts the playback.
    pub fn start(&mut self)
        ensures
            final(self)@ == old(self)@.after(PlaybackCommand::Start),
    {
        self.stopped = false;
    }

    /// Stops the playback, and drops what waits.
    pub fn stop(&mut self)
        ensures
            final(self)@ == old(self)@.after(PlaybackCommand::Stop),
    {
        self.stopped = true;
        self.queue.clear();
        assert(self@.queue =~= seq![]);
    }
}

/// What is taken in is played, in order and once: samples that come while the playback runs are
/// played behind those that wait, and after them there is silence.
pub proof fn law_samples_are_played(
    p: &mut PcmPlayback,
    chunk: Vec<i16>,
    taken: bool,
    q: &mut PcmPlayback,
    n: usize,
    r: Vec<i16>,
)
    requires
        call_ensures(PcmPlayback::on_chunk, (p, chunk), taken),
        call_ensures(PcmPlayback::fill, (q, n), r),
        *old(q) == *final(p),
        old(p)@.consuming,
        !old(p)@.stopped,
    ensures
        taken,
        r@.len() == n,
        ({
            let waiting = old(p)@.queue + chunk@;
            &&& forall|i: int|
                0 <= i < n && i < waiting.len() ==> #[trigger] r@[i] == waiting[i]
            &&& forall|i: int| waiting.len() <= i < n ==> #[trigger] r@[i] == 0
            &&& n <= waiting.len() ==> r@ + final(q)@.queue == waiting
            &&& n >= waiting.len() ==> final(q)@.queue.len() == 0
        }),
        !final(q)@.stopped,
        final(q)@.consuming,
{
    let waiting = old(p)@.queue + chunk@;
    if n <= waiting.len() {
        assert(r@ + final(q)@.queue =~= waiting);
    }
}

/// A playback that is stopped plays silence and takes nothing in; and once it has refused samples
/// it takes none in any more.
pub proof fn law_stopped_playback_is_silent(
    p: &mut PcmPlayback,
    n: usize,
    r: Vec<i16>,
    q: &mut PcmPlayback,
    chunk: Vec<i16>,
    taken: bool,
)
    requires
        call_ensures(PcmPlayback::fill, (p, n), r),
        call_ensures(PcmPlayback::on_chunk, (q, chunk), taken),
    ensures
        r@.len() == n,
        old(p)@.stopped ==> forall|i: int| 0 <= i < n ==> #[trigger] r@[i] == 0,
        old(p)@.stopped ==> final(p)@ == old(p)@,
        taken <==> old(q)@.consuming && !old(q)@.stopped,
        !taken ==> final(q)@.queue == old(q)@.queue && !final(q)@.consuming,
        final(q)@.stopped == old(q)@.stopped,
{
}

/// Stopping drops all that waits, and starting drops nothing; a restart leaves a playback that runs
/// and for which nothing waits.
pub proof fn law_commands_stop_and_start(
    p: &mut PcmPlayback,
    q: &mut PcmPlayback,
    s: &mut PcmPlayback,
    commands: &[PlaybackCommand],
    restart: [PlaybackCommand; 2],
)
    requires
        call_ensures(PcmPlayback::stop, (p,), ()),
        call_ensures(PcmPlayback::start, (q,), ()),
        call_ensures(restart_commands, (), restart),
        call_ensures(PcmPlayback::process_commands, (s, commands), ()),
        commands@ == restart@,
    ensures
        final(p)@.stopped,
        final(p)@.queue.len() == 0,
        final(p)@.consuming == old(p)@.consuming,
        !final(q)@.stopped,
        final(q)@.queue == old(q)@.queue,
        final(q)@.consuming == old(q)@.consuming,
        !final(s)@.stopped,
        final(s)@.queue.len() == 0,
        final(s)@.consuming == old(s)@.consuming,
{
    law_restart_drops_what_waits(old(s)@);
}

/// Commands are carried out one after the other: the last one counts for whether the playback is
/// stopped, and any stop among them for what waits.
pub proof fn law_last_command_counts(p: &mut PcmPlayback, commands: &[PlaybackCommand])
    requires
        call_ensures(PcmPlayback::process_commands, (p, commands), ()),
    ensures
        commands@.len() == 0 ==> final(p)@ == old(p)@,
        commands@.len() > 0 ==> (final(p)@.stopped <==> commands@.last() is Stop),
        commands@.contains(PlaybackCommand::Stop) ==> final(p)@.queue.len() == 0,
        !commands@.contains(PlaybackCommand::Stop) ==> final(p)@.queue == old(p)@.queue,
{
    lemma_queue_after_all(old(p)@, commands@);
}

proof fn lemma_queue_after_all(p: PlaybackState, commands: Seq<PlaybackCommand>)
    ensures
        commands.contains(PlaybackCommand::Stop) ==> p.after_all(commands).queue.len() == 0,
        !commands.contains(PlaybackCommand::Stop) ==> p.after_all(commands).queue == p.queue,
    decreases commands.len(),
{
    if commands.len() > 0 {
        let init = commands.drop_last();
        lemma_queue_after_all(p, init);
        assert(commands.last() == commands[commands.len() - 1]);
        if commands.contains(PlaybackCommand::Stop) {
            let i = choose|i: int|
                0 <= i < commands.len() && commands[i] == PlaybackCommand::Stop;
            if i < init.len() {
                assert(init[i] == PlaybackCommand::Stop);
            }
        } else if init.contains(PlaybackCommand::Stop) {
            let i = choose|i: int| 0 <= i < init.len() && init[i] == PlaybackCommand::Stop;
            assert(commands[i] == PlaybackCommand::Stop);
        }
    }
}

/// A playback begins running, with nothing to play.
pub proof fn law_playback_begins(p: PcmPlayback)
    requires
        call_ensures(PcmPlayback::new, (), p),
    ensures
        p@.queue.len() == 0,
        !p@.stopped,
        p@.consuming,
{
}

/// A restart succeeds exactly where the command to start gets through, and control through a
/// channel sends into that channel.
pub proof fn law_restart_succeeds_with_its_start(
    start_sent: bool,
    r: Result<(), String>,
    commands: [PlaybackCommand; 2],
    channel: std::sync::mpsc::Sender<PlaybackCommand>,
    c: PcmPlaybackController,
)
    requires
        call_ensures(restart_outcome, (start_sent,), r),
        call_ensures(restart_commands, (), commands),
        call_ensures(PcmPlaybackController::new, (channel,), c),
    ensures
        r is Ok <==> start_sent,
        commands@.len() == 2,
        commands@[0] is Stop,
        commands@[1] is Start,
        c.channel() == channel,
{
}

} // verus!
