//! Texts that wait to be sent over a connection, in order.

use std::collections::VecDeque;

use vstd::prelude::*;
use vstd::string::*;

use crate::views;

verus! {

/// Something that happens to an outbox that takes in nothing while it holds more than a limit.
pub enum Happening {
    /// A text is to be sent.
    Enqueue(Seq<char>),
    /// The first text was handed to the connection, which took it or did not.
    Send(bool),
}

/// Whether an outbox takes in another text.
pub open spec fn has_room(queue: Seq<Seq<char>>, limit: nat) -> bool {
    queue.len() <= limit
}

/// The texts behind the first.
pub open spec fn without_first(queue: Seq<Seq<char>>) -> Seq<Seq<char>> {
    queue.drop_first()
}

/// The texts with one more in front of them.
pub open spec fn with_first(queue: Seq<Seq<char>>, text: Seq<char>) -> Seq<Seq<char>> {
    seq![text] + queue
}

/// The outbox after something happened. To be sent the first text is taken out, and it is put back
/// where it was not sent.
pub open spec fn after(queue: Seq<Seq<char>>, limit: nat, h: Happening) -> Seq<Seq<char>> {
    match h {
        Happening::Enqueue(text) => if has_room(queue, limit) {
            queue.push(text)
        } else {
            queue
        },
        Happening::Send(ok) => if queue.len() == 0 {
            queue
        } else if ok {
            without_first(queue)
        } else {
            with_first(without_first(queue), queue[0])
        },
    }
}

/// The texts that were taken in.
pub open spec fn accepted(queue: Seq<Seq<char>>, limit: nat, h: Happening) -> Seq<Seq<char>> {
    match h {
        Happening::Enqueue(text) => if has_room(queue, limit) {
            seq![text]
        } else {
            seq![]
        },
        Happening::Send(_) => seq![],
    }
}

/// The texts that were sent.
pub open spec fn sent(queue: Seq<Seq<char>>, h: Happening) -> Seq<Seq<char>> {
    match h {
        Happening::Enqueue(_) => seq![],
        Happening::Send(ok) => if queue.len() > 0 && ok {
            seq![queue[0]]
        } else {
            seq![]
        },
    }
}

/// The outbox after several things happened.
pub open spec fn after_all(queue: Seq<Seq<char>>, limit: nat, hs: Seq<Happening>) -> Seq<Seq<char>>
    decreases hs.len(),
{
    if hs.len() == 0 {
        queue
    } else {
        after(after_all(queue, limit, hs.drop_last()), limit, hs.last())
    }
}

/// The texts that were taken in while several things happened.
pub open spec fn accepted_all(queue: Seq<Seq<char>>, limit: nat, hs: Seq<Happening>) -> Seq<
    Seq<char>,
>
    decreases hs.len(),
{
    if hs.len() == 0 {
        seq![]
    } else {
        accepted_all(queue, limit, hs.drop_last()) + accepted(
            after_all(queue, limit, hs.drop_last()),
            limit,
            hs.last(),
        )
    }
}

/// The texts that were sent while several things happened.
pub open spec fn sent_all(queue: Seq<Seq<char>>, limit: nat, hs: Seq<Happening>) -> Seq<Seq<char>>
    decreases hs.len(),
{
    if hs.len() == 0 {
        seq![]
    } else {
        sent_all(queue, limit, hs.drop_last()) + sent(
            after_all(queue, limit, hs.drop_last()),
            hs.last(),
        )
    }
}

/// Texts are sent in the order in which they were taken in, each once, and none is lost: what was
/// sent, followed by what waits, is what waited at first followed by what was taken in.
pub proof fn law_texts_are_sent_in_order(queue: Seq<Seq<char>>, limit: nat, hs: Seq<Happening>)
    ensures
        sent_all(queue, limit, hs) + after_all(queue, limit, hs) == queue + accepted_all(
            queue,
            limit,
            hs,
        ),
    decreases hs.len(),
{
    if hs.len() == 0 {
        assert(sent_all(queue, limit, hs) + after_all(queue, limit, hs) =~= queue + accepted_all(
            queue,
            limit,
            hs,
        ));
    } else {
        let init = hs.drop_last();
        law_texts_are_sent_in_order(queue, limit, init);
        let q = after_all(queue, limit, init);
        assert(sent(q, hs.last()) + after(q, limit, hs.last()) =~= q + accepted(
            q,
            limit,
            hs.last(),
        ));
        assert(sent_all(queue, limit, hs) + after_all(queue, limit, hs) =~= sent_all(
            queue,
            limit,
            init,
        ) + (sent(q, hs.last()) + after(q, limit, hs.last())));
        assert(sent_all(queue, limit, init) + (q + accepted(q, limit, hs.last())) =~= (sent_all(
            queue,
            limit,
            init,
        ) + q) + accepted(q, limit, hs.last()));
        assert((queue + accepted_all(queue, limit, init)) + accepted(q, limit, hs.last())
            =~= queue + accepted_all(queue, limit, hs));
    }
}

/// An outbox never holds more than one text beyond its limit.
pub proof fn law_outbox_is_bounded(queue: Seq<Seq<char>>, limit: nat, hs: Seq<Happening>)
    requires
        queue.len() <= limit + 1,
    ensures
        after_all(queue, limit, hs).len() <= limit + 1,
    decreases hs.len(),
{
    if hs.len() > 0 {
        law_outbox_is_bounded(queue, limit, hs.drop_last());
    }
}

/// Handing the first text to a connection that does not take it changes nothing.
pub proof fn law_failed_send_changes_nothing(queue: Seq<Seq<char>>, limit: nat)
    ensures
        after(queue, limit, Happening::Send(false)) == queue,
{
    assert(after(queue, limit, Happening::Send(false)) =~= queue);
}

/// Texts that wait to be sent.
pub struct Outbox {
    queue: VecDeque<String>,
}

impl View for Outbox {
    type V = Seq<Seq<char>>;

    closed spec fn view(&self) -> Seq<Seq<char>> {
        views::of(self.queue@)
    }
}

impl Outbox {
    /// An outbox that holds nothing.
    pub fn new() -> (r: Self)
        ensures
            r@ == Seq::<Seq<char>>::empty(),
    {
        let r = Outbox { queue: VecDeque::new() };
        assert(r@ =~= Seq::<Seq<char>>::empty());
        r
    }

    /// The number of texts.
    pub fn len(&self) -> (r: usize)
        ensures
            r == self@.len(),
    {
        self.queue.len()
    }

    /// Takes in a text, unless more than `limit` wait.
    pub fn enqueue(&mut self, text: &str, limit: usize) -> (r: bool)
        ensures
            r == has_room(old(self)@, limit as nat),
            final(self)@ == after(old(self)@, limit as nat, Happening::Enqueue(text@)),
    {
        if self.queue.len() > limit {
            return false;
        }
        let ghost before = self@;
        self.queue.push_back(text.to_owned());
        assert(self@ =~= before.push(text@));
        true
    }

    /// Takes the first text out.
    pub fn pop(&mut self) -> (r: Option<String>)
        ensures
            match r {
                Some(text) => {
                    &&& old(self)@.len() > 0
                    &&& text@ == old(self)@[0]
                    &&& final(self)@ == without_first(old(self)@)
                },
                None => old(self)@.len() == 0 && final(self)@ == old(self)@,
            },
    {
        let ghost before = self@;
        let r = self.queue.pop_front();
        proof {
            if r is Some {
                assert(self@ =~= before.drop_first());
            }
        }
        r
    }

    /// Puts a text back in front of the others.
    pub fn put_back(&mut self, text: String)
        ensures
            final(self)@ == with_first(old(self)@, text@),
    {
        let ghost before = self@;
        self.queue.push_front(text);
        assert(self@ =~= seq![text@] + before);
    }

    /// Drops all texts.
    pub fn clear(&mut self)
        ensures
            final(self)@ == Seq::<Seq<char>>::empty(),
    {
        self.queue.clear();
        assert(self@ =~= Seq::<Seq<char>>::empty());
    }
}

/// An outbox that has not more than its limit takes a text in, behind those that wait and as it is;
/// one that has more refuses it and changes nothing. What is taken out is the first, and what is put
/// back is the first again.
pub proof fn law_texts_wait_in_order(
    o: &mut Outbox,
    text: &str,
    limit: usize,
    taken: bool,
    p: &mut Outbox,
    first: Option<String>,
    q: &mut Outbox,
    back: String,
)
    requires
        call_ensures(Outbox::enqueue, (o, text, limit), taken),
        call_ensures(Outbox::pop, (p,), first),
        call_ensures(Outbox::put_back, (q, back), ()),
        *old(q) == *final(p),
        first is Some,
        back@ == first->0@,
    ensures
        taken <==> old(o)@.len() <= limit,
        taken ==> final(o)@ == old(o)@.push(text@),
        !taken ==> final(o)@ == old(o)@,
        first->0@ == old(p)@[0],
        final(p)@ == old(p)@.skip(1),
        final(q)@ == old(p)@,
{
    assert(final(p)@ =~= old(p)@.skip(1));
    assert(final(q)@ =~= old(p)@);
}

/// Where nothing waits nothing is taken out, and a cleared outbox has nothing waiting.
pub proof fn law_empty_outbox(
    p: &mut Outbox,
    first: Option<String>,
    o: &mut Outbox,
    fresh: Outbox,
    w: &Outbox,
    len: usize,
)
    requires
        call_ensures(Outbox::pop, (p,), first),
        call_ensures(Outbox::clear, (o,), ()),
        call_ensures(Outbox::new, (), fresh),
        call_ensures(Outbox::len, (w,), len),
    ensures
        first is None <==> old(p)@.len() == 0,
        final(o)@.len() == 0,
        fresh@.len() == 0,
        len == w@.len(),
{
}

} // verus!
