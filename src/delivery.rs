//! The decisions of the delivery loop: after each attempt's reply, deliver,
//! give up, or wait and try again.
use vstd::prelude::*;

verus! {

/// The number of attempts that a delivery may make.
pub const MAX_ATTEMPTS: u16 = 3;

/// The wait before the second attempt, in seconds.
pub const FIRST_BACKOFF_SECS: u64 = 10;

/// The wait before each later attempt, in seconds.
pub const LATER_BACKOFF_SECS: u64 = 30;

/// What one attempt to post a card came back with.
#[derive(Debug, Clone, Copy, PartialEq, Eq, Structural)]
pub enum Reply {
    /// The destination answered with this HTTP status.
    Status(u16),
    /// No answer: the connection, TLS or name lookup failed.
    TransportError,
}

/// How a delivery ended.
#[derive(Debug, Clone, Copy, PartialEq, Eq, Structural)]
pub enum Outcome {
    /// The destination took the card.
    Delivered,
    /// The destination was still rate limiting at the last attempt.
    Exhausted,
    /// The destination refused the card, or could not be reached.
    Failed,
}

/// What the delivery loop does next.
#[derive(Debug, Clone, Copy, PartialEq, Eq, Structural)]
pub enum Step {
    /// Wait this many seconds, then make attempt `next_attempt`.
    Retry { wait_secs: u64, next_attempt: u16 },
    /// Stop with this outcome.
    Finish(Outcome),
}

/// The step after attempt `attempt` came back with `reply`.
pub open spec fn step_after(attempt: u16, reply: Reply) -> Step {
    match reply {
        Reply::Status(200) => Step::Finish(Outcome::Delivered),
        Reply::Status(429) => if attempt >= MAX_ATTEMPTS {
            Step::Finish(Outcome::Exhausted)
        } else if attempt == 1 {
            Step::Retry { wait_secs: FIRST_BACKOFF_SECS, next_attempt: 2 }
        } else {
            Step::Retry { wait_secs: LATER_BACKOFF_SECS, next_attempt: (attempt + 1) as u16 }
        },
        _ => Step::Finish(Outcome::Failed),
    }
}

/// Decides what follows attempt `attempt` (counted from 1), given its reply.
pub fn next_step(attempt: u16, reply: Reply) -> (r: Step)
    requires
        1 <= attempt <= MAX_ATTEMPTS,
    ensures
        r == step_after(attempt, reply),
{
    match reply {
        Reply::Status(status) => {
            if status == 200 {
                Step::Finish(Outcome::Delivered)
            } else if status == 429 {
                if attempt >= MAX_ATTEMPTS {
                    Step::Finish(Outcome::Exhausted)
                } else if attempt == 1 {
                    Step::Retry { wait_secs: FIRST_BACKOFF_SECS, next_attempt: 2 }
                } else {
                    Step::Retry { wait_secs: LATER_BACKOFF_SECS, next_attempt: attempt + 1 }
                }
            } else {
                Step::Finish(Outcome::Failed)
            }
        },
        Reply::TransportError => Step::Finish(Outcome::Failed),
    }
}

impl Outcome {
    /// The HTTP status that answers the alert's sender: success, rate limit
    /// exhaustion and other failures stay apart.
    pub fn status_code(&self) -> (r: u16)
        ensures
            r == match *self {
                Outcome::Delivered => 200u16,
                Outcome::Exhausted => 429u16,
                Outcome::Failed => 500u16,
            },
    {
        match self {
            Outcome::Delivered => 200,
            Outcome::Exhausted => 429,
            Outcome::Failed => 500,
        }
    }
}

/// The outcome, and the waits on the way, of a delivery whose attempts from
/// `attempt` on come back with `replies`; `None` if the replies run out first.
pub open spec fn run_from(attempt: u16, replies: Seq<Reply>) -> Option<(Outcome, Seq<u64>)>
    decreases replies.len(),
{
    if replies.len() == 0 {
        None
    } else {
        match step_after(attempt, replies[0]) {
            Step::Finish(o) => Some((o, Seq::empty())),
            Step::Retry { wait_secs, next_attempt } => match run_from(next_attempt, replies.drop_first()) {
                Some((o, waits)) => Some((o, seq![wait_secs] + waits)),
                None => None,
            },
        }
    }
}

/// The sum of the waits, in seconds.
pub open spec fn total_wait(waits: Seq<u64>) -> int
    decreases waits.len(),
{
    if waits.len() == 0 {
        0
    } else {
        waits[0] + total_wait(waits.drop_first())
    }
}

/// A delivery never outlasts its bound: whatever the destination answers, it
/// ends by the third attempt, after at most two waits of 40 seconds in all.
pub proof fn lemma_delivery_bounded(replies: Seq<Reply>)
    requires
        replies.len() >= MAX_ATTEMPTS,
    ensures
        run_from(1, replies) is Some,
        run_from(1, replies).unwrap().1.len() <= 2,
        total_wait(run_from(1, replies).unwrap().1) <= FIRST_BACKOFF_SECS + LATER_BACKOFF_SECS,
{
    let r1 = replies.drop_first();
    let r2 = r1.drop_first();
    let r3 = r2.drop_first();
    assert(r3.len() >= 0);
    assert(run_from(3, r2) is Some);
    match run_from(3, r2) {
        Some((o, w)) => {
            assert(w.len() == 0);
            assert(total_wait(w) == 0);
        },
        None => {},
    }
    assert(run_from(2, r1) is Some);
    match run_from(2, r1) {
        Some((o, w)) => {
            assert(w.len() <= 1);
            if w.len() == 1 {
                assert(w.drop_first().len() == 0);
                assert(total_wait(w.drop_first()) == 0);
                assert(total_wait(w) == w[0]);
            }
            assert(total_wait(w) <= LATER_BACKOFF_SECS);
        },
        None => {},
    }
    match run_from(1, replies) {
        Some((o, w)) => {
            if w.len() > 0 {
                assert(w.drop_first() == run_from(2, r1).unwrap().1);
                assert(w[0] == FIRST_BACKOFF_SECS);
            }
        },
        None => {},
    }
}

} // verus!
