//! Cancellation of requests to the language model.

use std::sync::atomic::AtomicBool;
use std::sync::Arc;

use vstd::prelude::*;

verus! {

/// A flag that cancels requests. Its clones share the flag, with each other and between threads,
/// so what a holder reads is what any of them wrote last.
pub struct CancellationToken {
    cancelled: Arc<AtomicBool>,
}

/// `Arc::clone`: the result points to the allocation that `flag` points to, so both are one flag.
#[verifier::external_body]
fn share(flag: &Arc<AtomicBool>) -> (r: Arc<AtomicBool>)
    ensures
        r == *flag,
{
    flag.clone()
}

impl CancellationToken {
    /// Whether the flag is one that `AtomicBool::new` makes of `cancelled`.
    pub closed spec fn made_of(self, cancelled: bool) -> bool {
        call_ensures(AtomicBool::new, (cancelled,), *self.cancelled)
    }

    /// Whether `cancelled` is what `AtomicBool::load` reads from the flag, in the one order of all
    /// reads and writes. Holders in other threads may write it at any time, so two reads may
    /// differ.
    pub closed spec fn reads(self, cancelled: bool) -> bool {
        call_ensures(
            AtomicBool::load,
            (&*self.cancelled, std::sync::atomic::Ordering::SeqCst),
            cancelled,
        )
    }

    /// Whether `AtomicBool::store` wrote `cancelled` to the flag, in the one order of all reads and
    /// writes. What a holder reads later is what was written last, whichever holder wrote it.
    pub closed spec fn writes(self, cancelled: bool) -> bool {
        call_ensures(
            AtomicBool::store,
            (&*self.cancelled, cancelled, std::sync::atomic::Ordering::SeqCst),
            (),
        )
    }

    /// Whether `cancelled` is what was read from the flag through a [`ResetToken`] of it, and so
    /// behind a reset.
    pub closed spec fn reads_after_reset(self, cancelled: bool) -> bool {
        &&& self.reads(cancelled)
        &&& call_ensures(ResetToken::load, (&(ResetToken { token: self }),), cancelled)
    }

    /// A token that is not cancelled.
    pub fn new() -> (r: Self)
        ensures
            r.made_of(false),
    {
        CancellationToken { cancelled: Arc::new(AtomicBool::new(false)) }
    }

    /// Cancels the token, for all its clones.
    pub fn cancel(&self)
        ensures
            self.writes(true),
    {
        self.cancelled.store(true, std::sync::atomic::Ordering::SeqCst);
    }

    /// Whether the token, or a clone of it, was cancelled and not reset since.
    pub fn is_cancelled(&self) -> (r: bool)
        ensures
            self.reads(r),
    {
        self.cancelled.load(std::sync::atomic::Ordering::SeqCst)
    }

    /// Makes the token usable again, for all its clones.
    pub fn reset(&self)
        ensures
            self.writes(false),
    {
        self.cancelled.store(false, std::sync::atomic::Ordering::SeqCst);
    }

    /// Makes the token usable again, for all its clones, and hands out a holder of it through
    /// which the flag is read behind the reset.
    pub fn renewed(&self) -> (r: ResetToken)
        ensures
            self.writes(false),
            r.token() == *self,
    {
        self.reset();
        ResetToken { token: self.clone() }
    }
}

/// A holder of a flag that was reset before it was handed out.
pub struct ResetToken {
    token: CancellationToken,
}

impl ResetToken {
    /// The flag was reset: without that there is no such holder.
    #[verifier::type_invariant]
    spec fn was_reset(self) -> bool {
        self.token.writes(false)
    }

    /// The token whose flag was reset.
    pub closed spec fn token(self) -> CancellationToken {
        self.token
    }

    /// Whether the token, or a clone of it, was cancelled since the reset.
    pub fn is_cancelled(&self) -> (r: bool)
        ensures
            self.token().reads_after_reset(r),
    {
        self.load()
    }

    fn load(&self) -> (r: bool)
        ensures
            self.token().reads(r),
    {
        self.token.is_cancelled()
    }
}

impl Clone for CancellationToken {
    /// Another holder of the same flag.
    fn clone(&self) -> (r: Self)
        ensures
            r == *self,
    {
        CancellationToken { cancelled: share(&self.cancelled) }
    }
}

impl Default for CancellationToken {
    /// A token that is not cancelled.
    fn default() -> (r: Self)
        ensures
            r.made_of(false),
    {
        CancellationToken::new()
    }
}

} // verus!
