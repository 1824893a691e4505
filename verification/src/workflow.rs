//! The workflow runner: a linear sequence of steps with two escape hatches
//! (an early-success terminal signal and per-step bounded retries), run for
//! up to a fixed number of iterations. A step failure inside an iteration
//! never aborts the run: it triggers the recovery procedure and the next
//! iteration starts from the beginning of the sequence. Only exhausting
//! every iteration without reaching the terminal state makes the run
//! incomplete.

use vstd::prelude::*;

use crate::recovery::{RecoveryAction, RecoveryPhase, RecoveryReply, RecoveryRun};
use crate::recovery::standard_dismiss_actions;
use crate::step::{CapabilityReply, Signal, Step, StepExecution, StepKind, StepResult, StepVerdict};

verus! {

/// Which of the two workflows a run executes.
#[derive(Debug, Clone, Copy, PartialEq, Eq, Structural)]
pub enum WorkflowKind {
    JobApplication,
    MediaDiscovery,
}

/// An ordered sequence of steps plus the run's fault-tolerance policy.
#[derive(Debug, Clone, PartialEq, Eq)]
pub struct Workflow {
    pub steps: Vec<Step>,
    /// How many full passes over the sequence may be made.
    pub max_iterations: u32,
    /// Fixed sleep between consecutive steps and before a new iteration,
    /// in milliseconds.
    pub pause_ms: u64,
    /// Whether completing the whole sequence is itself the terminal state.
    /// When false, only a step's explicit finish signal ends the run early,
    /// and a completed pass is followed by another iteration.
    pub complete_is_terminal: bool,
}

impl Workflow {
    pub open spec fn wf(self) -> bool {
        &&& self.steps@.len() >= 1
        &&& self.max_iterations >= 1
        &&& forall|i: int| 0 <= i < self.steps@.len() ==> (#[trigger] self.steps@[i]).wf()
    }
}

/// How a run ended.
#[derive(Debug, Clone, Copy, PartialEq, Eq, Structural)]
pub enum RunResult {
    /// The terminal state was reached.
    Completed,
    /// Every iteration was exhausted without reaching the terminal state.
    Incomplete,
}

/// Where a run stands.
#[derive(Debug, Clone, Copy, PartialEq, Eq, Structural)]
pub enum RunPhase {
    /// A step is being executed.
    RunningStep,
    /// A step failed and the recovery procedure is being run.
    Recovering,
    /// The run is over.
    Done(RunResult),
}

/// What the driver must do after feeding one reply to the run.
#[derive(Debug, Clone, Copy, PartialEq, Eq, Structural)]
pub enum RunVerdict {
    /// Sleep this many milliseconds, then invoke the same step's capability
    /// again.
    RetryStep(u64),
    /// The step completed; sleep, then invoke the next step's capability.
    AdvanceStep(u64),
    /// The step failed; invoke the first recovery action.
    BeginRecovery,
    /// Invoke the next recovery action.
    ContinueRecovery,
    /// The iteration is over; sleep, then start the sequence again.
    BeginIteration(u64),
    /// The run is over.
    Finished(RunResult),
}

/// What the driver must invoke next.
#[derive(Debug, Clone, Copy, PartialEq, Eq, Structural)]
pub enum RunStatus {
    /// Invoke the capability registered for this step.
    RunCapability(StepKind),
    /// Invoke this recovery action.
    RunRecovery(RecoveryAction),
    /// Nothing: the run is over.
    Finished(RunResult),
}

/// One run of a workflow: the runner's whole state between two replies.
#[derive(Debug, Clone, PartialEq, Eq)]
pub struct WorkflowRun {
    pub workflow: Workflow,
    /// The current pass over the sequence, starting at 1.
    pub iteration: u32,
    /// The step the run stands at, while a step is being executed.
    pub step_index: usize,
    /// The current step's execution state.
    pub step_exec: StepExecution,
    /// The recovery procedure's state, while recovering.
    pub recovery: RecoveryRun,
    pub phase: RunPhase,
}

impl WorkflowRun {
    pub open spec fn wf(self) -> bool {
        &&& self.workflow.wf()
        &&& 1 <= self.iteration <= self.workflow.max_iterations
        &&& (self.phase == RunPhase::RunningStep ==> {
            &&& self.step_index < self.workflow.steps@.len()
            &&& self.step_exec.max_attempts == self.workflow.steps@[
                self.step_index as int].max_attempts
            &&& self.step_exec.delay_ms == self.workflow.steps@[self.step_index as int].delay_ms
            &&& self.step_exec.wf()
            &&& self.step_exec.in_progress()
        })
        &&& (self.phase == RunPhase::Recovering ==> self.recovery.wf()
            && !self.recovery.is_settled())
    }

    /// Start a run: iteration 1, first step, no attempt made yet.
    pub fn start(workflow: Workflow) -> (r: WorkflowRun)
        requires
            workflow.wf(),
        ensures
            r.workflow == workflow,
            r.iteration == 1,
            r.step_index == 0,
            r.step_exec == StepExecution::spec_begin(workflow.steps@[0]),
            r.phase == RunPhase::RunningStep,
            r.recovery.dismiss_actions@ =~= standard_dismiss_seq(),
            r.wf(),
    {
        let first: Step = workflow.steps[0];
        let step_exec = StepExecution::begin(&first);
        let recovery = RecoveryRun::begin(standard_dismiss_actions());
        WorkflowRun {
            workflow,
            iteration: 1,
            step_index: 0,
            step_exec,
            recovery,
            phase: RunPhase::RunningStep,
        }
    }

    /// The action the driver must perform next.
    pub open spec fn spec_status(self) -> RunStatus {
        match self.phase {
            RunPhase::RunningStep => RunStatus::RunCapability(
                self.workflow.steps@[self.step_index as int].kind,
            ),
            RunPhase::Recovering => RunStatus::RunRecovery(self.recovery.spec_current_action()),
            RunPhase::Done(res) => RunStatus::Finished(res),
        }
    }

    pub fn status(&self) -> (s: RunStatus)
        requires
            self.wf(),
        ensures
            s == self.spec_status(),
    {
        match self.phase {
            RunPhase::RunningStep => RunStatus::RunCapability(
                self.workflow.steps[self.step_index].kind,
            ),
            RunPhase::Recovering => {
                match self.recovery.current_action() {
                    Some(a) => RunStatus::RunRecovery(a),
                    // While recovering, the procedure is never settled.
                    None => RunStatus::Finished(RunResult::Incomplete),
                }
            },
            RunPhase::Done(res) => RunStatus::Finished(res),
        }
    }

    /// Where the run goes once the current step has completed with an
    /// advance signal: the next step when one remains; else the terminal
    /// state when completing the sequence is terminal; else the next
    /// iteration when one remains; else the run is incomplete.
    pub open spec fn spec_advance(self) -> (WorkflowRun, RunVerdict) {
        if self.step_index + 1 < self.workflow.steps@.len() {
            let next = self.workflow.steps@[self.step_index + 1];
            (
                WorkflowRun {
                    step_index: (self.step_index + 1) as usize,
                    step_exec: StepExecution::spec_begin(next),
                    ..self
                },
                RunVerdict::AdvanceStep(self.workflow.pause_ms),
            )
        } else if self.workflow.complete_is_terminal {
            (
                WorkflowRun { phase: RunPhase::Done(RunResult::Completed), ..self },
                RunVerdict::Finished(RunResult::Completed),
            )
        } else if self.iteration < self.workflow.max_iterations {
            (
                WorkflowRun {
                    iteration: (self.iteration + 1) as u32,
                    step_index: 0,
                    step_exec: StepExecution::spec_begin(self.workflow.steps@[0]),
                    ..self
                },
                RunVerdict::BeginIteration(self.workflow.pause_ms),
            )
        } else {
            (
                WorkflowRun { phase: RunPhase::Done(RunResult::Incomplete), ..self },
                RunVerdict::Finished(RunResult::Incomplete),
            )
        }
    }

    /// One transition while a step runs: the step executor classifies the
    /// reply; a finish signal ends the run completed; an advance signal
    /// moves along the sequence; a rejected, transport-failed or exhausted
    /// step starts the recovery procedure.
    pub open spec fn spec_feed_step(self, reply: CapabilityReply) -> (WorkflowRun, RunVerdict) {
        let fed = self.step_exec.spec_feed(reply);
        let stepped = WorkflowRun { step_exec: fed.0, ..self };
        match fed.1 {
            StepVerdict::RetryAfter(d) => (stepped, RunVerdict::RetryStep(d)),
            StepVerdict::Done(res) => match res {
                StepResult::Completed(Signal::FinishRun) => (
                    WorkflowRun { phase: RunPhase::Done(RunResult::Completed), ..stepped },
                    RunVerdict::Finished(RunResult::Completed),
                ),
                StepResult::Completed(Signal::Advance) => stepped.spec_advance(),
                _ => (
                    WorkflowRun {
                        phase: RunPhase::Recovering,
                        recovery: self.recovery.spec_restarted(),
                        ..stepped
                    },
                    RunVerdict::BeginRecovery,
                ),
            },
        }
    }

    /// Record the classified reply of the current step's capability.
    pub fn feed_step(&mut self, reply: CapabilityReply) -> (v: RunVerdict)
        requires
            old(self).wf(),
            old(self).phase == RunPhase::RunningStep,
        ensures
            *final(self) == old(self).spec_feed_step(reply).0,
            v == old(self).spec_feed_step(reply).1,
            final(self).wf(),
    {
        let verdict = self.step_exec.feed(reply);
        match verdict {
            StepVerdict::RetryAfter(d) => RunVerdict::RetryStep(d),
            StepVerdict::Done(res) => match res {
                StepResult::Completed(Signal::FinishRun) => {
                    self.phase = RunPhase::Done(RunResult::Completed);
                    RunVerdict::Finished(RunResult::Completed)
                },
                StepResult::Completed(Signal::Advance) => {
                    let total = self.workflow.steps.len();
                    if self.step_index < total - 1 {
                        self.step_index = self.step_index + 1;
                        let next: Step = self.workflow.steps[self.step_index];
                        self.step_exec = StepExecution::begin(&next);
                        RunVerdict::AdvanceStep(self.workflow.pause_ms)
                    } else if self.workflow.complete_is_terminal {
                        self.phase = RunPhase::Done(RunResult::Completed);
                        RunVerdict::Finished(RunResult::Completed)
                    } else if self.iteration < self.workflow.max_iterations {
                        self.iteration = self.iteration + 1;
                        self.step_index = 0;
                        let first: Step = self.workflow.steps[0];
                        self.step_exec = StepExecution::begin(&first);
                        RunVerdict::BeginIteration(self.workflow.pause_ms)
                    } else {
                        self.phase = RunPhase::Done(RunResult::Incomplete);
                        RunVerdict::Finished(RunResult::Incomplete)
                    }
                },
                StepResult::Rejected(_) => {
                    self.recovery.restart();
                    self.phase = RunPhase::Recovering;
                    RunVerdict::BeginRecovery
                },
                StepResult::TransportFailed => {
                    self.recovery.restart();
                    self.phase = RunPhase::Recovering;
                    RunVerdict::BeginRecovery
                },
                StepResult::Exhausted => {
                    self.recovery.restart();
                    self.phase = RunPhase::Recovering;
                    RunVerdict::BeginRecovery
                },
            },
        }
    }

    /// One transition while recovering: once the procedure settles, its
    /// outcome is deliberately disregarded — the next iteration starts when
    /// one remains, else the run is incomplete.
    pub open spec fn spec_feed_recovery(self, reply: RecoveryReply) -> (WorkflowRun, RunVerdict) {
        let fed = self.recovery.spec_feed(reply);
        if fed.is_settled() {
            if self.iteration < self.workflow.max_iterations {
                (
                    WorkflowRun {
                        recovery: fed,
                        iteration: (self.iteration + 1) as u32,
                        step_index: 0,
                        step_exec: StepExecution::spec_begin(self.workflow.steps@[0]),
                        phase: RunPhase::RunningStep,
                        ..self
                    },
                    RunVerdict::BeginIteration(self.workflow.pause_ms),
                )
            } else {
                (
                    WorkflowRun {
                        recovery: fed,
                        phase: RunPhase::Done(RunResult::Incomplete),
                        ..self
                    },
                    RunVerdict::Finished(RunResult::Incomplete),
                )
            }
        } else {
            (WorkflowRun { recovery: fed, ..self }, RunVerdict::ContinueRecovery)
        }
    }

    /// Record what the current recovery action reported.
    pub fn feed_recovery(&mut self, reply: RecoveryReply) -> (v: RunVerdict)
        requires
            old(self).wf(),
            old(self).phase == RunPhase::Recovering,
        ensures
            *final(self) == old(self).spec_feed_recovery(reply).0,
            v == old(self).spec_feed_recovery(reply).1,
            final(self).wf(),
    {
        self.recovery.feed(reply);
        match self.recovery.phase {
            RecoveryPhase::Settled(_) => {
                if self.iteration < self.workflow.max_iterations {
                    self.iteration = self.iteration + 1;
                    self.step_index = 0;
                    let first: Step = self.workflow.steps[0];
                    self.step_exec = StepExecution::begin(&first);
                    self.phase = RunPhase::RunningStep;
                    RunVerdict::BeginIteration(self.workflow.pause_ms)
                } else {
                    self.phase = RunPhase::Done(RunResult::Incomplete);
                    RunVerdict::Finished(RunResult::Incomplete)
                }
            },
            _ => RunVerdict::ContinueRecovery,
        }
    }
}

/// The dismiss actions of the standard recovery policy, as a sequence.
pub open spec fn standard_dismiss_seq() -> Seq<RecoveryAction> {
    seq![RecoveryAction::DismissBySelector, RecoveryAction::DismissByText]
}

/// The job-application workflow's step sequence: each step gated on the
/// prior one, one capability invocation per step and iteration, a fixed
/// two-second settle delay throughout. The gating question's absence is
/// the workflow's normal terminal condition, signalled by its capability,
/// so completing a pass without it is followed by another iteration.
pub open spec fn job_steps() -> Seq<Step> {
    seq![
        Step { kind: StepKind::VerifyAuthenticated, max_attempts: 1, delay_ms: 2000 },
        Step { kind: StepKind::OpenDiscoveryEntry, max_attempts: 1, delay_ms: 2000 },
        Step { kind: StepKind::SelectFirstQualifying, max_attempts: 1, delay_ms: 2000 },
        Step { kind: StepKind::OpenFilterPanel, max_attempts: 1, delay_ms: 2000 },
        Step { kind: StepKind::SelectAdvancedFilter, max_attempts: 1, delay_ms: 2000 },
        Step { kind: StepKind::ApplyFilters, max_attempts: 1, delay_ms: 2000 },
        Step { kind: StepKind::LocateActionControl, max_attempts: 1, delay_ms: 2000 },
        Step { kind: StepKind::InvokeAction, max_attempts: 1, delay_ms: 2000 },
        Step { kind: StepKind::ConfirmModalPrimary, max_attempts: 1, delay_ms: 2000 },
        Step { kind: StepKind::AdvanceModal, max_attempts: 1, delay_ms: 2000 },
        Step { kind: StepKind::ReviewAndSubmit, max_attempts: 1, delay_ms: 2000 },
        Step { kind: StepKind::GatingQuestion, max_attempts: 1, delay_ms: 2000 },
    ]
}

/// The media-discovery workflow's step sequence: navigation and the two
/// extraction steps run once; selecting the first entry and invoking
/// playback each carry their own bounded retry, since a click may land
/// before the page has settled or may spawn a window that must be
/// reconciled away before the outcome can be judged.
pub open spec fn media_steps() -> Seq<Step> {
    seq![
        Step { kind: StepKind::NavigateCatalog, max_attempts: 1, delay_ms: 0 },
        Step { kind: StepKind::ExtractListing, max_attempts: 1, delay_ms: 0 },
        Step { kind: StepKind::PersistListing, max_attempts: 1, delay_ms: 0 },
        Step { kind: StepKind::SelectFirstEntry, max_attempts: 5, delay_ms: 1000 },
        Step { kind: StepKind::InvokePlayback, max_attempts: 5, delay_ms: 2000 },
    ]
}

/// The job-application workflow: twelve gated steps, up to ten iterations,
/// a two-second pause between steps. Completing a pass is not terminal;
/// only the gating step's finish signal ends the run early.
pub fn job_workflow() -> (w: Workflow)
    ensures
        w.steps@ =~= job_steps(),
        w.max_iterations == 10,
        w.pause_ms == 2000,
        !w.complete_is_terminal,
        w.wf(),
{
    let mut steps: Vec<Step> = Vec::new();
    steps.push(Step { kind: StepKind::VerifyAuthenticated, max_attempts: 1, delay_ms: 2000 });
    steps.push(Step { kind: StepKind::OpenDiscoveryEntry, max_attempts: 1, delay_ms: 2000 });
    steps.push(Step { kind: StepKind::SelectFirstQualifying, max_attempts: 1, delay_ms: 2000 });
    steps.push(Step { kind: StepKind::OpenFilterPanel, max_attempts: 1, delay_ms: 2000 });
    steps.push(Step { kind: StepKind::SelectAdvancedFilter, max_attempts: 1, delay_ms: 2000 });
    steps.push(Step { kind: StepKind::ApplyFilters, max_attempts: 1, delay_ms: 2000 });
    steps.push(Step { kind: StepKind::LocateActionControl, max_attempts: 1, delay_ms: 2000 });
    steps.push(Step { kind: StepKind::InvokeAction, max_attempts: 1, delay_ms: 2000 });
    steps.push(Step { kind: StepKind::ConfirmModalPrimary, max_attempts: 1, delay_ms: 2000 });
    steps.push(Step { kind: StepKind::AdvanceModal, max_attempts: 1, delay_ms: 2000 });
    steps.push(Step { kind: StepKind::ReviewAndSubmit, max_attempts: 1, delay_ms: 2000 });
    steps.push(Step { kind: StepKind::GatingQuestion, max_attempts: 1, delay_ms: 2000 });
    proof {
        assert(steps@ =~= job_steps());
        assert forall|i: int| 0 <= i < steps@.len() implies (#[trigger] steps@[i]).wf() by {
            assert(steps@[i].max_attempts == 1);
        }
    }
    Workflow { steps, max_iterations: 10, pause_ms: 2000, complete_is_terminal: false }
}

/// The media-discovery workflow: five steps run as one pass; completing
/// the sequence is the terminal state, and any step failure ends the run
/// incomplete after recovery.
pub fn media_workflow() -> (w: Workflow)
    ensures
        w.steps@ =~= media_steps(),
        w.max_iterations == 1,
        w.pause_ms == 0,
        w.complete_is_terminal,
        w.wf(),
{
    let mut steps: Vec<Step> = Vec::new();
    steps.push(Step { kind: StepKind::NavigateCatalog, max_attempts: 1, delay_ms: 0 });
    steps.push(Step { kind: StepKind::ExtractListing, max_attempts: 1, delay_ms: 0 });
    steps.push(Step { kind: StepKind::PersistListing, max_attempts: 1, delay_ms: 0 });
    steps.push(Step { kind: StepKind::SelectFirstEntry, max_attempts: 5, delay_ms: 1000 });
    steps.push(Step { kind: StepKind::InvokePlayback, max_attempts: 5, delay_ms: 2000 });
    proof {
        assert(steps@ =~= media_steps());
        assert forall|i: int| 0 <= i < steps@.len() implies (#[trigger] steps@[i]).wf() by {
            assert(steps@[i].max_attempts >= 1);
        }
    }
    Workflow { steps, max_iterations: 1, pause_ms: 0, complete_is_terminal: true }
}

/// The interactive entry point's two-choice selection: the first choice
/// names the job workflow, the second the media workflow, anything else
/// is rejected.
pub fn choose_workflow(choice: &String) -> (k: Option<WorkflowKind>)
    ensures
        choice@ == "1"@ ==> k == Some(WorkflowKind::JobApplication),
        choice@ == "2"@ ==> k == Some(WorkflowKind::MediaDiscovery),
        choice@ != "1"@ && choice@ != "2"@ ==> k is None,
{
    let one: String = "1".to_owned();
    let two: String = "2".to_owned();
    proof {
        reveal_strlit("1");
        reveal_strlit("2");
        assert("1"@[0] == '1');
        assert("2"@[0] == '2');
        assert("1"@ != "2"@);
    }
    if *choice == one {
        Some(WorkflowKind::JobApplication)
    } else if *choice == two {
        Some(WorkflowKind::MediaDiscovery)
    } else {
        None
    }
}

} // verus!
