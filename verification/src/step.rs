//! Step execution: one logical action against the remote session, retried a
//! bounded number of times, with transient and fatal outcomes told apart.

use vstd::prelude::*;

verus! {

/// Identity of one logical action in a workflow: the key under which the
/// concrete remote capability (a DOM script plus its expected result tags)
/// is registered by the driver.
#[derive(Debug, Clone, Copy, PartialEq, Eq, Structural)]
pub enum StepKind {
    VerifyAuthenticated,
    OpenDiscoveryEntry,
    SelectFirstQualifying,
    OpenFilterPanel,
    SelectAdvancedFilter,
    ApplyFilters,
    LocateActionControl,
    InvokeAction,
    ConfirmModalPrimary,
    AdvanceModal,
    ReviewAndSubmit,
    GatingQuestion,
    NavigateCatalog,
    ExtractListing,
    PersistListing,
    SelectFirstEntry,
    InvokePlayback,
}

/// What a matched (successful) capability result tells the workflow runner.
#[derive(Debug, Clone, Copy, PartialEq, Eq, Structural)]
pub enum Signal {
    /// Go on with the next step of the sequence.
    Advance,
    /// The workflow's terminal condition was observed: the run is complete.
    FinishRun,
}

/// Why a capability result was classified as fatal.
#[derive(Debug, Clone, PartialEq, Eq)]
pub enum FailReason {
    /// The capability reported an explicit error message.
    Message(String),
    /// The capability returned a value of an unexpected shape.
    UnexpectedValue,
}

/// One invocation of a capability, as classified at the automation-target
/// boundary: a closed tagged type in place of raw string comparison.
#[derive(Debug, Clone, PartialEq, Eq)]
pub enum CapabilityReply {
    /// The step's success predicate matched.
    Success(Signal),
    /// A recognized "not found / not ready" tag: transient, worth retrying.
    NotReady,
    /// A recognized fatal tag: the action is structurally impossible here.
    Fatal(FailReason),
    /// The protocol call itself failed: the session's liveness is in question.
    Transport,
}

/// How a step execution ended.
#[derive(Debug, Clone, PartialEq, Eq)]
pub enum StepResult {
    /// The capability matched its success predicate.
    Completed(Signal),
    /// The capability reported a fatal tag: failed at once, no retry.
    Rejected(FailReason),
    /// A transport error: propagated at once, never retried at this layer.
    TransportFailed,
    /// Every attempt reported "not ready".
    Exhausted,
}

/// What the driver must do after feeding one capability reply to a step.
#[derive(Debug, Clone, PartialEq, Eq)]
pub enum StepVerdict {
    /// Sleep this many milliseconds, then invoke the capability again.
    RetryAfter(u64),
    /// The step is over, with this result.
    Done(StepResult),
}

/// A step: a capability plus its retry policy. Stateless between runs; it
/// owns no session.
#[derive(Debug, Clone, Copy, PartialEq, Eq, Structural)]
pub struct Step {
    pub kind: StepKind,
    /// How many times the capability may be invoked. At least one.
    pub max_attempts: u32,
    /// Fixed sleep between consecutive attempts, in milliseconds.
    pub delay_ms: u64,
}

impl Step {
    pub open spec fn wf(self) -> bool {
        self.max_attempts >= 1
    }
}

/// The executor's state while one step runs: how many attempts were made so
/// far against a fixed retry policy.
#[derive(Debug, Clone, Copy, PartialEq, Eq, Structural)]
pub struct StepExecution {
    pub max_attempts: u32,
    pub delay_ms: u64,
    /// Attempts made so far.
    pub attempts: u32,
}

impl StepExecution {
    pub open spec fn wf(self) -> bool {
        self.max_attempts >= 1
    }

    /// The step is not decided yet: another attempt may be made.
    pub open spec fn in_progress(self) -> bool {
        self.attempts < self.max_attempts
    }

    /// The state in which a step's execution begins: no attempt made yet.
    pub open spec fn spec_begin(step: Step) -> StepExecution {
        StepExecution { max_attempts: step.max_attempts, delay_ms: step.delay_ms, attempts: 0 }
    }

    /// Begin executing a step: no attempt has been made yet.
    pub fn begin(step: &Step) -> (e: StepExecution)
        requires
            step.wf(),
        ensures
            e == StepExecution::spec_begin(*step),
            e.wf(),
            e.in_progress(),
    {
        StepExecution { max_attempts: step.max_attempts, delay_ms: step.delay_ms, attempts: 0 }
    }

    /// One attempt of the step executor, as a function of the prior state and
    /// the classified reply: the new state and what the driver must do next.
    ///
    /// A matched result ends the step at once; a fatal tag fails it at once;
    /// a transport error is propagated, not retried; only "not ready" is
    /// retried, until the attempt budget runs out.
    pub open spec fn spec_feed(self, reply: CapabilityReply) -> (StepExecution, StepVerdict) {
        let stepped = StepExecution {
            max_attempts: self.max_attempts,
            delay_ms: self.delay_ms,
            attempts: (self.attempts + 1) as u32,
        };
        let verdict = match reply {
            CapabilityReply::Success(sig) => StepVerdict::Done(StepResult::Completed(sig)),
            CapabilityReply::Fatal(why) => StepVerdict::Done(StepResult::Rejected(why)),
            CapabilityReply::Transport => StepVerdict::Done(StepResult::TransportFailed),
            CapabilityReply::NotReady => if self.attempts + 1 < self.max_attempts {
                StepVerdict::RetryAfter(self.delay_ms)
            } else {
                StepVerdict::Done(StepResult::Exhausted)
            },
        };
        (stepped, verdict)
    }

    /// Record one capability reply.
    pub fn feed(&mut self, reply: CapabilityReply) -> (v: StepVerdict)
        requires
            old(self).wf(),
            old(self).in_progress(),
        ensures
            *final(self) == old(self).spec_feed(reply).0,
            v == old(self).spec_feed(reply).1,
            final(self).wf(),
    {
        self.attempts = self.attempts + 1;
        match reply {
            CapabilityReply::Success(sig) => StepVerdict::Done(StepResult::Completed(sig)),
            CapabilityReply::Fatal(why) => StepVerdict::Done(StepResult::Rejected(why)),
            CapabilityReply::Transport => StepVerdict::Done(StepResult::TransportFailed),
            CapabilityReply::NotReady => {
                if self.attempts < self.max_attempts {
                    StepVerdict::RetryAfter(self.delay_ms)
                } else {
                    StepVerdict::Done(StepResult::Exhausted)
                }
            },
        }
    }
}

/// Feeding a whole sequence of replies to a step execution: the state it
/// ends in, the result if the step was decided, and how many sleeps the
/// driver was told to make on the way.
pub open spec fn spec_run_step(
    e: StepExecution,
    replies: Seq<CapabilityReply>,
) -> (StepExecution, Option<StepResult>, int)
    decreases replies.len(),
{
    if replies.len() == 0 {
        (e, None::<StepResult>, 0)
    } else {
        let fed = e.spec_feed(replies[0]);
        match fed.1 {
            StepVerdict::Done(res) => (fed.0, Some(res), 0),
            StepVerdict::RetryAfter(_) => {
                let rest = spec_run_step(fed.0, replies.skip(1));
                (rest.0, rest.1, rest.2 + 1)
            },
        }
    }
}

/// A capability that keeps reporting "not ready" is invoked exactly
/// `max_attempts` times and the step ends `Exhausted`, with a sleep between
/// every two consecutive attempts and no other.
pub proof fn lemma_never_ready_means_exhausted(e: StepExecution, replies: Seq<CapabilityReply>)
    requires
        e.wf(),
        e.in_progress(),
        replies.len() == e.max_attempts - e.attempts,
        forall|i: int| 0 <= i < replies.len() ==> replies[i] == CapabilityReply::NotReady,
    ensures
        spec_run_step(e, replies).1 == Some(StepResult::Exhausted),
        spec_run_step(e, replies).0.attempts == e.max_attempts,
        spec_run_step(e, replies).2 == replies.len() - 1,
    decreases replies.len(),
{
    if replies.len() > 1 {
        let fed = e.spec_feed(replies[0]);
        assert(forall|i: int| 0 <= i < replies.skip(1).len()
            ==> replies.skip(1)[i] == replies[i + 1]);
        lemma_never_ready_means_exhausted(fed.0, replies.skip(1));
    }
}

/// A capability that reports a fatal tag on attempt `k` (after `k - 1`
/// "not ready" replies, with `k` within the attempt budget) ends the step
/// `Rejected` at once: exactly `k` attempts are made and no further retry
/// nor sleep follows the fatal reply.
pub proof fn lemma_fatal_tag_rejects_at_once(
    e: StepExecution,
    replies: Seq<CapabilityReply>,
    k: int,
)
    requires
        e.wf(),
        1 <= k,
        e.attempts + k <= e.max_attempts,
        replies.len() == k,
        forall|i: int| 0 <= i < k - 1 ==> replies[i] == CapabilityReply::NotReady,
        (replies[k - 1] matches CapabilityReply::Fatal(_)),
    ensures
        (spec_run_step(e, replies).1 matches Some(r) && (r matches StepResult::Rejected(m)
            && replies[k - 1] == CapabilityReply::Fatal(m))),
        spec_run_step(e, replies).0.attempts == e.attempts + k,
        spec_run_step(e, replies).2 == k - 1,
    decreases k,
{
    if k > 1 {
        let fed = e.spec_feed(replies[0]);
        assert(forall|i: int| 0 <= i < replies.skip(1).len()
            ==> replies.skip(1)[i] == replies[i + 1]);
        lemma_fatal_tag_rejects_at_once(fed.0, replies.skip(1), k - 1);
    }
}

} // verus!
