//! When a request to the language model is sent again.

use vstd::prelude::*;
use vstd::string::*;

verus! {

/// How often a request is sent before it is given up.
pub const MAX_ATTEMPTS: usize = 5;

/// How long to wait, in milliseconds, before the second attempt; each later wait is twice as long.
pub const FIRST_DELAY_MS: u64 = 100;

/// What came back for a request.
#[derive(Debug)]
pub enum Reply {
    /// An answer of the server: its status code, the status in words, and its body.
    Answer { code: u16, status: String, body: String },
    /// The request did not get through.
    NetworkError(String),
}

/// The mathematical counterpart of a [`Reply`].
pub enum ReplyView {
    Answer { code: u16, status: Seq<char>, body: Seq<char> },
    NetworkError(Seq<char>),
}

impl View for Reply {
    type V = ReplyView;

    open spec fn view(&self) -> ReplyView {
        match *self {
            Reply::Answer { code, status, body } => ReplyView::Answer {
                code,
                status: status@,
                body: body@,
            },
            Reply::NetworkError(e) => ReplyView::NetworkError(e@),
        }
    }
}

/// What a reply calls for.
#[derive(Debug)]
pub enum RetryStep {
    /// The request succeeded.
    Succeed,
    /// Wait so many milliseconds, then try again.
    RetryAfter(u64),
    /// The request failed for good.
    Fail(String),
}

/// The mathematical counterpart of a [`RetryStep`].
pub enum StepView {
    Succeed,
    RetryAfter(nat),
    Fail(Seq<char>),
}

impl View for RetryStep {
    type V = StepView;

    open spec fn view(&self) -> StepView {
        match *self {
            RetryStep::Succeed => StepView::Succeed,
            RetryStep::RetryAfter(ms) => StepView::RetryAfter(ms as nat),
            RetryStep::Fail(e) => StepView::Fail(e@),
        }
    }
}

/// Whether a status code reports success.
pub open spec fn is_success(code: u16) -> bool {
    200 <= code < 300
}

/// Whether the body of an answer is read at once, for the report of what went wrong: not where the
/// status code reports success, since the body is then the answer.
pub fn reads_body(code: u16) -> (r: bool)
    ensures
        r == !is_success(code),
{
    !(code >= 200 && code < 300)
}

/// Whether a status code asks to try again later: too many requests, or service unavailable.
pub open spec fn is_rate_limit(code: u16) -> bool {
    code == 429 || code == 503
}

/// The wait behind attempt number `attempt`, counted from 0.
pub open spec fn delay_ms(attempt: nat) -> nat
    decreases attempt,
{
    if attempt == 0 {
        FIRST_DELAY_MS as nat
    } else {
        2 * delay_ms((attempt - 1) as nat)
    }
}

/// What a reply to attempt number `attempt` calls for.
pub open spec fn step(attempt: nat, reply: ReplyView) -> StepView {
    match reply {
        ReplyView::Answer { code, status, body } => if is_success(code) {
            StepView::Succeed
        } else if is_rate_limit(code) {
            if attempt + 1 < MAX_ATTEMPTS {
                StepView::RetryAfter(delay_ms(attempt))
            } else {
                StepView::Fail("LLM API rate limit error "@ + status + ": "@ + body)
            }
        } else {
            StepView::Fail("LLM API error "@ + status + ": "@ + body)
        },
        ReplyView::NetworkError(e) => StepView::Fail("LLM API request error: "@ + e),
    }
}

/// Whether a reply asks to try again later.
pub open spec fn asks_to_wait(reply: ReplyView) -> bool {
    reply matches ReplyView::Answer { code, .. } && is_rate_limit(code)
}

/// How sending a request went.
pub struct Course {
    /// How often it was sent.
    pub sent: nat,
    /// How long it was waited for, in milliseconds.
    pub waited_ms: nat,
    /// The reply that ended it, where one did.
    pub end: Option<ReplyView>,
}

/// How sending goes from attempt number `attempt` on, where the server would reply with `replies`,
/// one after the other.
pub open spec fn course(attempt: nat, replies: Seq<ReplyView>) -> Course
    decreases replies.len(),
{
    if replies.len() == 0 {
        Course { sent: 0, waited_ms: 0, end: None }
    } else {
        match step(attempt, replies[0]) {
            StepView::RetryAfter(ms) => {
                let rest = course(attempt + 1, replies.drop_first());
                Course { sent: 1 + rest.sent, waited_ms: ms + rest.waited_ms, end: rest.end }
            },
            _ => Course { sent: 1, waited_ms: 0, end: Some(replies[0]) },
        }
    }
}

/// Whatever the server replies, a request is sent at most five times, with at most one and a half
/// seconds of waiting in all, and five replies always bring it to an end.
pub proof fn law_sending_is_bounded(replies: Seq<ReplyView>)
    ensures
        course(0, replies).sent <= MAX_ATTEMPTS,
        course(0, replies).waited_ms <= 1500,
        replies.len() >= MAX_ATTEMPTS ==> course(0, replies).end is Some,
{
    lemma_delays();
    reveal_with_fuel(course, 6);
}

/// The waits double from a tenth of a second on.
proof fn lemma_delays()
    ensures
        delay_ms(0) == 100,
        delay_ms(1) == 200,
        delay_ms(2) == 400,
        delay_ms(3) == 800,
{
    assert(delay_ms(0) == 100);
    assert(delay_ms(1) == 200);
    assert(delay_ms(2) == 400);
    assert(delay_ms(3) == 800);
}

/// Only a server that asks to wait is asked again: replies that do not ask for it end the sending
/// at once, and the reply that ends it is the first such one, unless the attempts run out before.
pub proof fn law_first_decisive_reply_counts(replies: Seq<ReplyView>, n: nat)
    requires
        n < replies.len(),
        n < MAX_ATTEMPTS,
        !asks_to_wait(replies[n as int]),
        forall|i: int| 0 <= i < n ==> asks_to_wait(#[trigger] replies[i]),
    ensures
        course(0, replies).end == Some(replies[n as int]),
        course(0, replies).sent == n + 1,
{
    lemma_course_to(0, replies, n);
}

proof fn lemma_course_to(attempt: nat, replies: Seq<ReplyView>, n: nat)
    requires
        n < replies.len(),
        attempt + n < MAX_ATTEMPTS,
        !asks_to_wait(replies[n as int]),
        forall|i: int| 0 <= i < n ==> asks_to_wait(#[trigger] replies[i]),
    ensures
        course(attempt, replies).end == Some(replies[n as int]),
        course(attempt, replies).sent == n + 1,
    decreases n,
{
    if n > 0 {
        let rest = replies.drop_first();
        assert(asks_to_wait(replies[0]));
        assert forall|i: int| 0 <= i < n - 1 implies asks_to_wait(#[trigger] rest[i]) by {
            assert(rest[i] == replies[i + 1]);
        }
        lemma_course_to(attempt + 1, rest, (n - 1) as nat);
    }
}

/// The sending of one request.
pub struct RetryState {
    attempt: usize,
}

impl RetryState {
    /// The number of attempts that were made in vain.
    pub closed spec fn attempt(&self) -> nat {
        self.attempt as nat
    }

    /// The last attempt allowed is not passed.
    #[verifier::type_invariant]
    spec fn within_attempts(&self) -> bool {
        self.attempt < MAX_ATTEMPTS
    }

    /// A request that was not sent yet.
    pub fn new() -> (r: Self)
        ensures
            r.attempt() == 0,
    {
        RetryState { attempt: 0 }
    }

    /// Whether the next attempt may be made: not after the request was cancelled.
    pub fn before_send(&self, cancelled: bool) -> (r: Result<(), String>)
        ensures
            !cancelled ==> r is Ok,
            cancelled ==> r is Err && r->Err_0@ == "Request cancelled"@,
    {
        if cancelled {
            Err("Request cancelled".to_owned())
        } else {
            Ok(())
        }
    }

    /// Takes in the reply to the attempt that was made.
    pub fn on_reply(&mut self, reply: Reply) -> (r: RetryStep)
        ensures
            r@ == step(old(self).attempt(), reply@),
            final(self).attempt() == if r@ is RetryAfter {
                old(self).attempt() + 1
            } else {
                old(self).attempt()
            },
    {
        proof {
            use_type_invariant(&*self);
            lemma_delays();
        }
        match reply {
            Reply::Answer { code, status, body } => {
                if !reads_body(code) {
                    return RetryStep::Succeed;
                }
                if code == 429 || code == 503 {
                    if self.attempt + 1 < MAX_ATTEMPTS {
                        let delay: u64 = if self.attempt == 0 {
                            FIRST_DELAY_MS
                        } else if self.attempt == 1 {
                            2 * FIRST_DELAY_MS
                        } else if self.attempt == 2 {
                            4 * FIRST_DELAY_MS
                        } else {
                            8 * FIRST_DELAY_MS
                        };
                        self.attempt = self.attempt + 1;
                        return RetryStep::RetryAfter(delay);
                    }
                    return RetryStep::Fail(
                        failure("LLM API rate limit error ", status.as_str(), body.as_str()),
                    );
                }
                RetryStep::Fail(failure("LLM API error ", status.as_str(), body.as_str()))
            },
            Reply::NetworkError(e) => {
                let mut message = "LLM API request error: ".to_owned();
                message.append(e.as_str());
                RetryStep::Fail(message)
            },
        }
    }
}

/// The report of an answer that was no success.
fn failure(what: &str, status: &str, body: &str) -> (r: String)
    ensures
        r@ == what@ + status@ + ": "@ + body@,
{
    let mut message = what.to_owned();
    message.append(status);
    message.append(": ");
    message.append(body);
    message
}

/// A reply decides by its code alone: from 200 to 299 the request has succeeded; with 429 and 503
/// it is sent again, five times at most, after a tenth of a second that doubles each time; anything
/// else is its end, reported with the status and the body.
pub proof fn law_codes_decide(
    s: &mut RetryState,
    code: u16,
    status: String,
    body: String,
    r: RetryStep,
    read: bool,
)
    requires
        call_ensures(RetryState::on_reply, (s, Reply::Answer { code, status, body }), r),
        call_ensures(reads_body, (code,), read),
    ensures
        r is Succeed <==> 200 <= code <= 299,
        read == !(r is Succeed),
        r is RetryAfter <==> (code == 429 || code == 503) && old(s).attempt() < 4,
        r matches RetryStep::RetryAfter(ms) ==> {
            &&& old(s).attempt() == 0 ==> ms == 100
            &&& old(s).attempt() == 1 ==> ms == 200
            &&& old(s).attempt() == 2 ==> ms == 400
            &&& old(s).attempt() == 3 ==> ms == 800
            &&& final(s).attempt() == old(s).attempt() + 1
        },
        r matches RetryStep::Fail(report) ==> exists|what: Seq<char>|
            report@ == #[trigger] (what + status@ + ": "@ + body@),
{
    lemma_delays();
    if !(200 <= code <= 299) && !((code == 429 || code == 503) && old(s).attempt() < 4) {
        let what = if code == 429 || code == 503 {
            "LLM API rate limit error "@
        } else {
            "LLM API error "@
        };
        assert(r@ == StepView::Fail(what + status@ + ": "@ + body@));
    }
}

/// A request that did not get through is not sent again, and what went wrong is reported; neither
/// is one sent that was cancelled, and any other may be.
pub proof fn law_network_errors_end(
    s: &mut RetryState,
    error: String,
    r: RetryStep,
    t: &RetryState,
    cancelled: bool,
    allowed: Result<(), String>,
)
    requires
        call_ensures(RetryState::on_reply, (s, Reply::NetworkError(error)), r),
        call_ensures(RetryState::before_send, (t, cancelled), allowed),
    ensures
        r matches RetryStep::Fail(report) && exists|what: Seq<char>|
            report@ == #[trigger] (what + error@),
        allowed is Ok <==> !cancelled,
{
    assert(r@ == StepView::Fail("LLM API request error: "@ + error@));
}

} // verus!
