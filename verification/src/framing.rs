//! Cutting a stream into frames of one length.

use vstd::prelude::*;

verus! {

/// The full frames of `n` elements that `s` begins with.
pub open spec fn frames<T>(s: Seq<T>, n: nat) -> Seq<Seq<T>>
    decreases s.len(),
{
    if n == 0 || s.len() < n {
        seq![]
    } else {
        seq![s.take(n as int)] + frames(s.skip(n as int), n)
    }
}

/// What is left of `s` behind its full frames.
pub open spec fn rest<T>(s: Seq<T>, n: nat) -> Seq<T>
    decreases s.len(),
{
    if n == 0 || s.len() < n {
        s
    } else {
        rest(s.skip(n as int), n)
    }
}

/// Each frame is full, and what is left is less than a frame.
pub proof fn law_frames_are_full<T>(s: Seq<T>, n: nat)
    requires
        n > 0,
    ensures
        forall|k: int| 0 <= k < frames(s, n).len() ==> (#[trigger] frames(s, n)[k]).len() == n,
        rest(s, n).len() < n,
        frames(s, n).len() == s.len() / n,
    decreases s.len(),
{
    if s.len() >= n {
        let tail = s.skip(n as int);
        law_frames_are_full(tail, n);
        assert forall|k: int| 0 <= k < frames(s, n).len() implies (#[trigger] frames(
            s,
            n,
        )[k]).len() == n by {
            if k > 0 {
                assert(frames(s, n)[k] == frames(tail, n)[k - 1]);
            }
        }
        assert(s.len() / n == 1 + tail.len() / n) by (nonlinear_arith)
            requires
                n > 0,
                s.len() == tail.len() + n,
        ;
    } else {
        assert(s.len() / n == 0) by (nonlinear_arith)
            requires
                n > 0,
                s.len() < n,
        ;
    }
}

/// Nothing is lost: the frames and what is left, put together again, are the stream.
pub proof fn law_nothing_is_lost<T>(s: Seq<T>, n: nat)
    ensures
        frames(s, n).flatten() + rest(s, n) == s,
    decreases s.len(),
{
    if n == 0 || s.len() < n {
        assert(frames(s, n).flatten() + rest(s, n) =~= s);
    } else {
        let tail = s.skip(n as int);
        law_nothing_is_lost(tail, n);
        let all = seq![s.take(n as int)] + frames(tail, n);
        assert(all.drop_first() =~= frames(tail, n));
        assert(all.flatten() == s.take(n as int) + frames(tail, n).flatten());
        assert(frames(s, n).flatten() + rest(s, n) =~= s.take(n as int) + (frames(
            tail,
            n,
        ).flatten() + rest(tail, n)));
        assert(s.take(n as int) + tail =~= s);
    }
}

/// How the stream is cut does not depend on how it arrives.
pub proof fn law_arrival_does_not_matter<T>(a: Seq<T>, b: Seq<T>, n: nat)
    ensures
        frames(a + b, n) == frames(a, n) + frames(rest(a, n) + b, n),
        rest(a + b, n) == rest(rest(a, n) + b, n),
    decreases a.len(),
{
    if n == 0 || a.len() < n {
        assert(frames(a, n) + frames(rest(a, n) + b, n) =~= frames(a + b, n));
    } else {
        let tail = a.skip(n as int);
        assert((a + b).take(n as int) =~= a.take(n as int));
        assert((a + b).skip(n as int) =~= tail + b);
        law_arrival_does_not_matter(tail, b, n);
        assert(frames(a + b, n) =~= frames(a, n) + frames(rest(a, n) + b, n));
    }
}

/// Takes the first `n` elements out of `buffer`.
fn take_front<T>(buffer: &mut Vec<T>, n: usize) -> (r: Vec<T>)
    requires
        n <= old(buffer)@.len(),
    ensures
        r@ == old(buffer)@.take(n as int),
        final(buffer)@ == old(buffer)@.skip(n as int),
{
    let mut tail = buffer.split_off(n);
    std::mem::swap(buffer, &mut tail);
    tail
}

/// Takes the full frames of `n` elements out of `buffer`.
pub fn take_frames<T>(buffer: &mut Vec<T>, n: usize) -> (r: Vec<Vec<T>>)
    requires
        n > 0,
    ensures
        r@.len() == frames(old(buffer)@, n as nat).len(),
        forall|k: int|
            0 <= k < r@.len() ==> (#[trigger] r@[k])@ == frames(old(buffer)@, n as nat)[k],
        final(buffer)@ == rest(old(buffer)@, n as nat),
{
    let ghost all = buffer@;
    let ghost total = frames(all, n as nat);
    let mut r: Vec<Vec<T>> = Vec::new();
    while buffer.len() >= n
        invariant
            n > 0,
            total == frames(all, n as nat),
            r@.len() + frames(buffer@, n as nat).len() == total.len(),
            forall|k: int| 0 <= k < r@.len() ==> (#[trigger] r@[k])@ == total[k],
            frames(buffer@, n as nat) == total.skip(r@.len() as int),
            rest(buffer@, n as nat) == rest(all, n as nat),
        decreases buffer@.len(),
    {
        let ghost before = buffer@;
        let frame = take_front(buffer, n);
        assert(frames(before, n as nat)[0] == frame@);
        assert(frame@ == total[r@.len() as int]);
        r.push(frame);
        assert(frames(buffer@, n as nat) =~= frames(before, n as nat).skip(1));
        assert(total.skip(r@.len() as int) =~= frames(before, n as nat).skip(1));
    }
    r
}

} // verus!
