//! Session acquisition: bounded-retry establishment of the connection to the
//! remote automation endpoint, with a fixed sleep between attempts.

use vstd::prelude::*;

verus! {

/// What one connection attempt reported.
#[derive(Debug, Clone, Copy, PartialEq, Eq, Structural)]
pub enum ConnectReply {
    /// The session handshake succeeded.
    Connected,
    /// The endpoint could not be reached or refused the handshake.
    Refused,
}

/// How the whole acquisition ended.
#[derive(Debug, Clone, Copy, PartialEq, Eq, Structural)]
pub enum ConnectOutcome {
    /// A session was established.
    Established,
    /// Every attempt failed; the last underlying error is reported upward.
    Exhausted,
}

/// What the driver must do after one connection attempt.
#[derive(Debug, Clone, Copy, PartialEq, Eq, Structural)]
pub enum ConnectVerdict {
    /// Sleep this many milliseconds, then attempt the connection again.
    RetryAfter(u64),
    /// The acquisition is over, with this outcome.
    Done(ConnectOutcome),
}

/// The acquisition's state: attempts made so far against a fixed policy of
/// `max_attempts` tries with a fixed `delay_ms` sleep between them.
#[derive(Debug, Clone, Copy, PartialEq, Eq, Structural)]
pub struct ConnectRetry {
    pub max_attempts: u32,
    pub delay_ms: u64,
    /// Attempts made so far.
    pub attempts: u32,
}

impl ConnectRetry {
    pub open spec fn wf(self) -> bool {
        self.max_attempts >= 1
    }

    pub open spec fn in_progress(self) -> bool {
        self.attempts < self.max_attempts
    }

    /// Begin acquiring a session: no attempt has been made yet.
    pub fn begin(max_attempts: u32, delay_ms: u64) -> (c: ConnectRetry)
        requires
            max_attempts >= 1,
        ensures
            c == (ConnectRetry { max_attempts, delay_ms, attempts: 0 }),
            c.wf(),
            c.in_progress(),
    {
        ConnectRetry { max_attempts, delay_ms, attempts: 0 }
    }

    /// One attempt, as a function of the prior state and what the connector
    /// reported: success ends the acquisition at once; a failure is retried
    /// after the fixed delay until the attempt budget runs out.
    pub open spec fn spec_feed(self, reply: ConnectReply) -> (ConnectRetry, ConnectVerdict) {
        let stepped = ConnectRetry {
            max_attempts: self.max_attempts,
            delay_ms: self.delay_ms,
            attempts: (self.attempts + 1) as u32,
        };
        let verdict = match reply {
            ConnectReply::Connected => ConnectVerdict::Done(ConnectOutcome::Established),
            ConnectReply::Refused => if self.attempts + 1 < self.max_attempts {
                ConnectVerdict::RetryAfter(self.delay_ms)
            } else {
                ConnectVerdict::Done(ConnectOutcome::Exhausted)
            },
        };
        (stepped, verdict)
    }

    /// Record one connection attempt.
    pub fn feed(&mut self, reply: ConnectReply) -> (v: ConnectVerdict)
        requires
            old(self).wf(),
            old(self).in_progress(),
        ensures
            *final(self) == old(self).spec_feed(reply).0,
            v == old(self).spec_feed(reply).1,
            final(self).wf(),
    {
        self.attempts = self.attempts + 1;
        match reply {
            ConnectReply::Connected => ConnectVerdict::Done(ConnectOutcome::Established),
            ConnectReply::Refused => {
                if self.attempts < self.max_attempts {
                    ConnectVerdict::RetryAfter(self.delay_ms)
                } else {
                    ConnectVerdict::Done(ConnectOutcome::Exhausted)
                }
            },
        }
    }
}

/// Feeding a whole sequence of connector replies: the state the acquisition
/// ends in, the outcome if it was decided, and how many sleeps the driver
/// was told to make on the way.
pub open spec fn spec_run_connect(
    c: ConnectRetry,
    replies: Seq<ConnectReply>,
) -> (ConnectRetry, Option<ConnectOutcome>, int)
    decreases replies.len(),
{
    if replies.len() == 0 {
        (c, None::<ConnectOutcome>, 0)
    } else {
        let fed = c.spec_feed(replies[0]);
        match fed.1 {
            ConnectVerdict::Done(out) => (fed.0, Some(out), 0),
            ConnectVerdict::RetryAfter(_) => {
                let rest = spec_run_connect(fed.0, replies.skip(1));
                (rest.0, rest.1, rest.2 + 1)
            },
        }
    }
}

/// A connector that fails `k` times and then succeeds, with `k` below the
/// attempt budget, yields an established session after `k + 1` attempts and
/// exactly `k` sleeps.
pub proof fn lemma_connect_succeeds_after_failures(
    c: ConnectRetry,
    replies: Seq<ConnectReply>,
    k: int,
)
    requires
        c.wf(),
        c.attempts == 0,
        0 <= k < c.max_attempts,
        replies.len() == k + 1,
        forall|i: int| 0 <= i < k ==> replies[i] == ConnectReply::Refused,
        replies[k] == ConnectReply::Connected,
    ensures
        spec_run_connect(c, replies).1 == Some(ConnectOutcome::Established),
        spec_run_connect(c, replies).0.attempts == k + 1,
        spec_run_connect(c, replies).2 == k,
{
    lemma_connect_run_from(c, replies, k);
}

/// A connector that always fails exhausts the acquisition after exactly
/// `max_attempts` attempts.
pub proof fn lemma_connect_always_failing_exhausts(c: ConnectRetry, replies: Seq<ConnectReply>)
    requires
        c.wf(),
        c.in_progress(),
        replies.len() == c.max_attempts - c.attempts,
        forall|i: int| 0 <= i < replies.len() ==> replies[i] == ConnectReply::Refused,
    ensures
        spec_run_connect(c, replies).1 == Some(ConnectOutcome::Exhausted),
        spec_run_connect(c, replies).0.attempts == c.max_attempts,
        spec_run_connect(c, replies).2 == replies.len() - 1,
    decreases replies.len(),
{
    if replies.len() > 1 {
        let fed = c.spec_feed(replies[0]);
        assert(forall|i: int| 0 <= i < replies.skip(1).len()
            ==> replies.skip(1)[i] == replies[i + 1]);
        lemma_connect_always_failing_exhausts(fed.0, replies.skip(1));
    }
}

/// Helper generalized over the attempts already made.
proof fn lemma_connect_run_from(c: ConnectRetry, replies: Seq<ConnectReply>, k: int)
    requires
        c.wf(),
        0 <= k,
        c.attempts + k < c.max_attempts,
        replies.len() == k + 1,
        forall|i: int| 0 <= i < k ==> replies[i] == ConnectReply::Refused,
        replies[k] == ConnectReply::Connected,
    ensures
        spec_run_connect(c, replies).1 == Some(ConnectOutcome::Established),
        spec_run_connect(c, replies).0.attempts == c.attempts + k + 1,
        spec_run_connect(c, replies).2 == k,
    decreases k,
{
    if k > 0 {
        let fed = c.spec_feed(replies[0]);
        assert(forall|i: int| 0 <= i < replies.skip(1).len()
            ==> replies.skip(1)[i] == replies[i + 1]);
        lemma_connect_run_from(fed.0, replies.skip(1), k - 1);
    }
}

} // verus!
