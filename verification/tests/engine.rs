use autoflow::classify::{
    classify_advance_modal, classify_advanced_filter, classify_apply_filters,
    classify_authentication, classify_element_click, classify_extracted_listing,
    classify_filter_panel, classify_first_entry_attempt, classify_gating_question,
    classify_invoke_action, classify_locate_action, classify_modal_primary,
    classify_playback_attempt, classify_qualifying_entry, classify_review_submit,
    is_authenticated, ScriptValue,
};
use autoflow::recovery::{
    standard_dismiss_actions, RecoveryAction, RecoveryOutcome, RecoveryPhase, RecoveryReply,
    RecoveryRun,
};
use autoflow::session::{ConnectOutcome, ConnectReply, ConnectRetry, ConnectVerdict};
use autoflow::step::{
    CapabilityReply, FailReason, Signal, Step, StepExecution, StepKind, StepResult, StepVerdict,
};
use autoflow::tabs::{plan_to_close, BrowserWindows};
use autoflow::workflow::{
    job_workflow, media_workflow, RunResult, RunStatus, RunVerdict, WorkflowRun,
};

fn text(s: &str) -> ScriptValue {
    ScriptValue::Text(s.to_string())
}

#[test]
fn step_all_not_ready_exhausts_after_exactly_max_attempts() {
    let step = Step { kind: StepKind::SelectFirstEntry, max_attempts: 3, delay_ms: 250 };
    let mut exec = StepExecution::begin(&step);
    let mut sleeps = 0;
    let mut attempts = 0;
    let result = loop {
        attempts += 1;
        match exec.feed(CapabilityReply::NotReady) {
            StepVerdict::RetryAfter(d) => {
                assert_eq!(d, 250);
                sleeps += 1;
            }
            StepVerdict::Done(res) => break res,
        }
    };
    assert_eq!(result, StepResult::Exhausted);
    assert_eq!(attempts, 3);
    assert_eq!(exec.attempts, 3);
    assert_eq!(sleeps, 2);
}

#[test]
fn step_fatal_tag_rejects_immediately() {
    let step = Step { kind: StepKind::InvokeAction, max_attempts: 5, delay_ms: 100 };
    let mut exec = StepExecution::begin(&step);
    // Attempt 1: not ready, retried.
    assert_eq!(exec.feed(CapabilityReply::NotReady), StepVerdict::RetryAfter(100));
    // Attempt 2: fatal tag; the step fails at once, no further attempt.
    let v = exec.feed(CapabilityReply::Fatal(FailReason::Message("Modal not found".to_string())));
    assert_eq!(
        v,
        StepVerdict::Done(StepResult::Rejected(FailReason::Message(
            "Modal not found".to_string()
        )))
    );
    assert_eq!(exec.attempts, 2);
}

#[test]
fn step_success_returns_signal() {
    let step = Step { kind: StepKind::GatingQuestion, max_attempts: 2, delay_ms: 10 };
    let mut exec = StepExecution::begin(&step);
    let v = exec.feed(CapabilityReply::Success(Signal::FinishRun));
    assert_eq!(v, StepVerdict::Done(StepResult::Completed(Signal::FinishRun)));
    assert_eq!(exec.attempts, 1);
}

#[test]
fn step_transport_error_is_not_retried() {
    let step = Step { kind: StepKind::NavigateCatalog, max_attempts: 4, delay_ms: 10 };
    let mut exec = StepExecution::begin(&step);
    let v = exec.feed(CapabilityReply::Transport);
    assert_eq!(v, StepVerdict::Done(StepResult::TransportFailed));
    assert_eq!(exec.attempts, 1);
}

#[test]
fn reconcile_keeps_only_remembered_window_regardless_of_order() {
    let a = 11;
    let b = 22;
    let c = 33;
    let mut w = BrowserWindows { open_windows: vec![a, b, c], active: a };
    w.reconcile_to_single_window();
    assert_eq!(w.open_windows, vec![a]);
    assert_eq!(w.active, a);

    // The same handles in another enumeration order, active in the middle.
    let mut w = BrowserWindows { open_windows: vec![c, a, b], active: a };
    w.reconcile_to_single_window();
    assert_eq!(w.open_windows, vec![a]);
    assert_eq!(w.active, a);
}

#[test]
fn reconcile_with_single_window_is_a_no_op() {
    let only = 7;
    let mut w = BrowserWindows { open_windows: vec![only], active: only };
    w.reconcile_to_single_window();
    assert_eq!(w.open_windows, vec![only]);
    assert_eq!(w.active, only);
}

#[test]
fn plan_to_close_lists_every_other_handle() {
    let plan = plan_to_close(&vec![5, 9, 5, 2], 5);
    assert_eq!(plan, vec![9, 2]);
    let empty = plan_to_close(&vec![5], 5);
    assert_eq!(empty, Vec::<u64>::new());
}

fn run_recovery_with_no_dismissible_element(run: &mut RecoveryRun) -> (RecoveryOutcome, u32) {
    let mut actions = 0;
    loop {
        match run.current_action() {
            Some(_) => {
                actions += 1;
                run.feed(RecoveryReply::NoEffect);
            }
            None => match run.phase {
                RecoveryPhase::Settled(out) => return (out, actions),
                _ => unreachable!(),
            },
        }
    }
}

#[test]
fn recovery_is_idempotent_when_nothing_matches() {
    let mut run = RecoveryRun::begin(standard_dismiss_actions());
    let (first, actions_first) = run_recovery_with_no_dismissible_element(&mut run);
    assert_eq!(first, RecoveryOutcome::NoActionFound);
    // Both dismiss actions and the confirm action were each tried once.
    assert_eq!(actions_first, 3);

    run.restart();
    let (second, actions_second) = run_recovery_with_no_dismissible_element(&mut run);
    assert_eq!(second, RecoveryOutcome::NoActionFound);
    assert_eq!(actions_second, 3);
}

#[test]
fn recovery_tries_actions_in_order_of_specificity() {
    let mut run = RecoveryRun::begin(standard_dismiss_actions());
    assert_eq!(run.current_action(), Some(RecoveryAction::DismissBySelector));
    run.feed(RecoveryReply::NoEffect);
    assert_eq!(run.current_action(), Some(RecoveryAction::DismissByText));
    run.feed(RecoveryReply::NoEffect);
    assert_eq!(run.current_action(), Some(RecoveryAction::ConfirmDialog));
    run.feed(RecoveryReply::NoEffect);
    assert_eq!(run.current_action(), None);
}

#[test]
fn recovery_reports_action_taken_and_skips_to_confirm_after_a_match() {
    let mut run = RecoveryRun::begin(standard_dismiss_actions());
    assert_eq!(run.current_action(), Some(RecoveryAction::DismissBySelector));
    run.feed(RecoveryReply::Matched);
    // The remaining dismiss action is skipped; the confirm action still runs.
    assert_eq!(run.current_action(), Some(RecoveryAction::ConfirmDialog));
    run.feed(RecoveryReply::NoEffect);
    assert_eq!(run.phase, RecoveryPhase::Settled(RecoveryOutcome::ActionTaken));
}

#[test]
fn connect_succeeds_after_failures_with_one_sleep_per_failure() {
    let mut conn = ConnectRetry::begin(5, 2000);
    let mut sleeps = 0;
    for _ in 0..2 {
        match conn.feed(ConnectReply::Refused) {
            ConnectVerdict::RetryAfter(d) => {
                assert_eq!(d, 2000);
                sleeps += 1;
            }
            _ => unreachable!(),
        }
    }
    let v = conn.feed(ConnectReply::Connected);
    assert_eq!(v, ConnectVerdict::Done(ConnectOutcome::Established));
    assert_eq!(sleeps, 2);
    assert_eq!(conn.attempts, 3);
}

#[test]
fn connect_exhausts_after_exactly_max_attempts_when_always_failing() {
    let mut conn = ConnectRetry::begin(4, 50);
    let mut attempts = 0;
    let outcome = loop {
        attempts += 1;
        match conn.feed(ConnectReply::Refused) {
            ConnectVerdict::RetryAfter(_) => {}
            ConnectVerdict::Done(out) => break out,
        }
    };
    assert_eq!(outcome, ConnectOutcome::Exhausted);
    assert_eq!(attempts, 4);
    assert_eq!(conn.attempts, 4);
}

fn job_happy_reply(kind: StepKind) -> CapabilityReply {
    match kind {
        StepKind::VerifyAuthenticated => {
            classify_authentication(is_authenticated(false, true, false, false))
        }
        StepKind::OpenDiscoveryEntry => classify_element_click(text("coordinate_click")),
        StepKind::SelectFirstQualifying => classify_qualifying_entry(text("Clicked qualifying LI")),
        StepKind::OpenFilterPanel => classify_filter_panel(ScriptValue::Truth(true)),
        StepKind::SelectAdvancedFilter => {
            classify_advanced_filter(text("Successfully clicked the advanced filter radio input"))
        }
        StepKind::ApplyFilters => {
            classify_apply_filters(text("Successfully clicked the show results button"))
        }
        StepKind::LocateActionControl => classify_locate_action(text("Found clickable apply button")),
        StepKind::InvokeAction => {
            classify_invoke_action(text("Successfully clicked the apply button"))
        }
        StepKind::ConfirmModalPrimary => {
            classify_modal_primary(text("Successfully clicked the primary button in modal footer"))
        }
        StepKind::AdvanceModal => {
            classify_advance_modal(text("Next button not found in modal footer"))
        }
        StepKind::ReviewAndSubmit => classify_review_submit(text("Review button not found")),
        StepKind::GatingQuestion => classify_gating_question(text("Question not found")),
        _ => unreachable!(),
    }
}

#[test]
fn job_workflow_terminates_successfully_when_gating_question_is_absent() {
    let mut run = WorkflowRun::start(job_workflow());
    let mut invoked = Vec::new();
    let result = loop {
        match run.status() {
            RunStatus::RunCapability(kind) => {
                invoked.push(kind);
                let v = run.feed_step(job_happy_reply(kind));
                if let RunVerdict::Finished(r) = v {
                    break r;
                }
            }
            RunStatus::RunRecovery(_) => panic!("recovery must never be invoked on this run"),
            RunStatus::Finished(r) => break r,
        }
    };
    assert_eq!(result, RunResult::Completed);
    assert_eq!(run.iteration, 1);
    assert_eq!(invoked.len(), 12);
    assert_eq!(invoked[0], StepKind::VerifyAuthenticated);
    assert_eq!(invoked[11], StepKind::GatingQuestion);
}

#[test]
fn media_workflow_retries_first_entry_twice_then_proceeds_to_playback() {
    let mut run = WorkflowRun::start(media_workflow());
    let mut first_entry_invocations = 0;
    let mut first_entry_sleeps = 0;
    let mut reached_playback = false;
    let result = loop {
        match run.status() {
            RunStatus::RunCapability(kind) => {
                let reply = match kind {
                    StepKind::NavigateCatalog => CapabilityReply::Success(Signal::Advance),
                    StepKind::ExtractListing => classify_extracted_listing(Some(24)),
                    StepKind::PersistListing => CapabilityReply::Success(Signal::Advance),
                    StepKind::SelectFirstEntry => {
                        first_entry_invocations += 1;
                        // The click lands but the URL-containment predicate
                        // fails twice before navigation is verified.
                        let verified = first_entry_invocations >= 3;
                        classify_first_entry_attempt(text("Clicked on the first movie"), verified)
                    }
                    StepKind::InvokePlayback => {
                        assert_eq!(first_entry_invocations, 3);
                        reached_playback = true;
                        classify_playback_attempt(text("Clicked on the play button"), true)
                    }
                    _ => unreachable!(),
                };
                let v = run.feed_step(reply);
                match v {
                    RunVerdict::RetryStep(d) => {
                        assert_eq!(kind, StepKind::SelectFirstEntry);
                        assert_eq!(d, 1000);
                        first_entry_sleeps += 1;
                    }
                    RunVerdict::Finished(r) => break r,
                    _ => {}
                }
            }
            RunStatus::RunRecovery(_) => panic!("recovery must never be invoked on this run"),
            RunStatus::Finished(r) => break r,
        }
    };
    assert_eq!(result, RunResult::Completed);
    assert!(reached_playback);
    assert_eq!(first_entry_invocations, 3);
    assert_eq!(first_entry_sleeps, 2);
}

#[test]
fn job_workflow_recovers_and_restarts_iteration_after_a_fatal_step() {
    let mut run = WorkflowRun::start(job_workflow());
    // The first step fails fatally.
    let v = run.feed_step(CapabilityReply::Fatal(FailReason::UnexpectedValue));
    assert_eq!(v, RunVerdict::BeginRecovery);
    assert_eq!(run.status(), RunStatus::RunRecovery(RecoveryAction::DismissBySelector));
    assert_eq!(run.feed_recovery(RecoveryReply::NoEffect), RunVerdict::ContinueRecovery);
    assert_eq!(run.status(), RunStatus::RunRecovery(RecoveryAction::DismissByText));
    assert_eq!(run.feed_recovery(RecoveryReply::NoEffect), RunVerdict::ContinueRecovery);
    assert_eq!(run.status(), RunStatus::RunRecovery(RecoveryAction::ConfirmDialog));
    // Recovery settles; its outcome is disregarded and the next iteration
    // starts from the beginning of the sequence.
    assert_eq!(run.feed_recovery(RecoveryReply::NoEffect), RunVerdict::BeginIteration(2000));
    assert_eq!(run.iteration, 2);
    assert_eq!(run.status(), RunStatus::RunCapability(StepKind::VerifyAuthenticated));
}

#[test]
fn run_is_incomplete_once_every_iteration_is_exhausted() {
    // The media workflow has a single iteration: one failed step, one
    // recovery pass, and the run is incomplete.
    let mut run = WorkflowRun::start(media_workflow());
    assert_eq!(run.feed_step(CapabilityReply::Transport), RunVerdict::BeginRecovery);
    run.feed_recovery(RecoveryReply::NoEffect);
    run.feed_recovery(RecoveryReply::NoEffect);
    let v = run.feed_recovery(RecoveryReply::NoEffect);
    assert_eq!(v, RunVerdict::Finished(RunResult::Incomplete));
    assert_eq!(run.status(), RunStatus::Finished(RunResult::Incomplete));
}

#[test]
fn job_workflow_loops_iterations_when_a_pass_completes_without_the_terminal_signal() {
    let mut run = WorkflowRun::start(job_workflow());
    // Answer the gating question on every pass: the pass completes but the
    // terminal signal never comes.
    let mut iterations_seen = 1;
    let result = loop {
        match run.status() {
            RunStatus::RunCapability(kind) => {
                let reply = if kind == StepKind::GatingQuestion {
                    classify_gating_question(text(
                        "Successfully selected 'Yes' for sponsorship question",
                    ))
                } else {
                    job_happy_reply(kind)
                };
                match run.feed_step(reply) {
                    RunVerdict::BeginIteration(_) => iterations_seen += 1,
                    RunVerdict::Finished(r) => break r,
                    _ => {}
                }
            }
            RunStatus::RunRecovery(_) => panic!("no step fails on this run"),
            RunStatus::Finished(r) => break r,
        }
    };
    assert_eq!(result, RunResult::Incomplete);
    assert_eq!(iterations_seen, 10);
    assert_eq!(run.iteration, 10);
}

#[test]
fn workflow_definitions_match_their_policies() {
    let job = job_workflow();
    assert_eq!(job.steps.len(), 12);
    assert_eq!(job.max_iterations, 10);
    assert_eq!(job.pause_ms, 2000);
    assert!(!job.complete_is_terminal);
    assert!(job.steps.iter().all(|s| s.max_attempts == 1 && s.delay_ms == 2000));
    assert_eq!(job.steps[0].kind, StepKind::VerifyAuthenticated);
    assert_eq!(job.steps[11].kind, StepKind::GatingQuestion);

    let media = media_workflow();
    assert_eq!(media.steps.len(), 5);
    assert_eq!(media.max_iterations, 1);
    assert_eq!(media.pause_ms, 0);
    assert!(media.complete_is_terminal);
    assert_eq!(media.steps[3].kind, StepKind::SelectFirstEntry);
    assert_eq!(media.steps[3].max_attempts, 5);
    assert_eq!(media.steps[3].delay_ms, 1000);
    assert_eq!(media.steps[4].kind, StepKind::InvokePlayback);
    assert_eq!(media.steps[4].max_attempts, 5);
    assert_eq!(media.steps[4].delay_ms, 2000);
}
