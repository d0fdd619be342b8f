//! When the event loop of a connection reads, waits and ends.

use vstd::prelude::*;

verus! {

/// How long to wait while a connection is being renewed, before looking again.
pub const RECONNECT_POLL_MS: u64 = 40;

/// What an event loop does next.
#[derive(Debug, Clone, Copy, PartialEq, Eq, Structural)]
pub enum Gate {
    /// Wait so many milliseconds, then look again.
    Wait(u64),
    /// End the loop.
    Stop,
    /// Read the next event.
    Read,
    /// Start over, with a look at the state of the connection.
    Again,
}

/// What an event loop does next, by the state of its connection.
pub fn gate(reconnecting: bool, final_shutdown: bool) -> (r: Gate)
    ensures
        r == if reconnecting {
            Gate::Wait(RECONNECT_POLL_MS)
        } else if final_shutdown {
            Gate::Stop
        } else {
            Gate::Read
        },
{
    if reconnecting {
        Gate::Wait(RECONNECT_POLL_MS)
    } else if final_shutdown {
        Gate::Stop
    } else {
        Gate::Read
    }
}

/// What an event loop does once it has waited: it ends where the end is final by now, and else
/// starts over.
pub fn after_wait(final_shutdown: bool) -> (r: Gate)
    ensures
        r == if final_shutdown {
            Gate::Stop
        } else {
            Gate::Again
        },
{
    if final_shutdown {
        Gate::Stop
    } else {
        Gate::Again
    }
}

/// A loop reads while its connection stands and its end is not final. While the connection is being
/// renewed it waits, 40 milliseconds at a time; and it ends where the end is final, at once or once
/// it has waited.
pub proof fn law_loops_read_wait_and_end(
    reconnecting: bool,
    final_shutdown: bool,
    first: Gate,
    waited: Gate,
)
    requires
        call_ensures(gate, (reconnecting, final_shutdown), first),
        call_ensures(after_wait, (final_shutdown,), waited),
    ensures
        first == Gate::Wait(40) <==> reconnecting,
        first == Gate::Read <==> !reconnecting && !final_shutdown,
        first == Gate::Stop <==> !reconnecting && final_shutdown,
        waited == Gate::Stop <==> final_shutdown,
        waited == Gate::Again <==> !final_shutdown,
{
}

} // verus!
