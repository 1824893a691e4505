//! Recovery procedure: a best-effort, idempotent attempt to return the
//! session to a known-good state after a step failed inside an iteration.
//!
//! The procedure tries an ordered, fixed list of generic "dismiss overlay"
//! actions until one matches, then a "confirm/close incomplete-state dialog"
//! action. It never raises an error: an action whose call fails, or that
//! finds nothing to act on, simply reports no effect, and when nothing
//! matched at all the outcome is `NoActionFound`.

use vstd::prelude::*;

verus! {

/// One generic corrective action, ordered by specificity: policy data, so
/// that new heuristics are additive.
#[derive(Debug, Clone, Copy, PartialEq, Eq, Structural)]
pub enum RecoveryAction {
    /// Click a dismiss control found through a list of known selectors.
    DismissBySelector,
    /// Click a visible control whose text content reads as a dismissal.
    DismissByText,
    /// Confirm the dialog that an incomplete state leaves behind.
    ConfirmDialog,
}

/// What one recovery action reported. A transport failure during a recovery
/// action is classified as `NoEffect`: recovery never escalates.
#[derive(Debug, Clone, Copy, PartialEq, Eq, Structural)]
pub enum RecoveryReply {
    /// The action found something and acted on it.
    Matched,
    /// The action found nothing to act on, or its call failed.
    NoEffect,
}

/// Tagged result of one whole invocation of the procedure. There is no
/// error variant: recovery never raises.
#[derive(Debug, Clone, Copy, PartialEq, Eq, Structural)]
pub enum RecoveryOutcome {
    /// At least one action matched.
    ActionTaken,
    /// Nothing matched; the caller proceeds regardless.
    NoActionFound,
}

/// Where the procedure stands.
#[derive(Debug, Clone, Copy, PartialEq, Eq, Structural)]
pub enum RecoveryPhase {
    /// Trying the dismiss actions in order; the `usize` is the index of the
    /// next one to try.
    Dismissing(usize),
    /// Trying the final confirm action; the `bool` records whether any
    /// dismiss action matched.
    Confirming(bool),
    /// The procedure is over.
    Settled(RecoveryOutcome),
}

/// One invocation of the recovery procedure over a fixed, ordered list of
/// dismiss actions followed by the confirm action.
#[derive(Debug, Clone, PartialEq, Eq)]
pub struct RecoveryRun {
    /// The dismiss actions, in the order they are tried. Fixed policy data.
    pub dismiss_actions: Vec<RecoveryAction>,
    pub phase: RecoveryPhase,
}

impl RecoveryRun {
    pub open spec fn wf(self) -> bool {
        match self.phase {
            RecoveryPhase::Dismissing(next) => next < self.dismiss_actions@.len(),
            RecoveryPhase::Confirming(_) => true,
            RecoveryPhase::Settled(_) => true,
        }
    }

    pub open spec fn is_settled(self) -> bool {
        self.phase matches RecoveryPhase::Settled(_)
    }

    /// The freshly started phase for a given dismiss list: straight to the
    /// confirm action when the list is empty.
    pub open spec fn spec_fresh_phase(dismiss_count: nat) -> RecoveryPhase {
        if dismiss_count == 0 {
            RecoveryPhase::Confirming(false)
        } else {
            RecoveryPhase::Dismissing(0)
        }
    }

    /// Begin one invocation of the procedure over the given dismiss list.
    pub fn begin(dismiss_actions: Vec<RecoveryAction>) -> (r: RecoveryRun)
        ensures
            r.dismiss_actions == dismiss_actions,
            r.phase == RecoveryRun::spec_fresh_phase(dismiss_actions@.len()),
            r.wf(),
            !r.is_settled(),
    {
        let phase = if dismiss_actions.len() == 0 {
            RecoveryPhase::Confirming(false)
        } else {
            RecoveryPhase::Dismissing(0)
        };
        RecoveryRun { dismiss_actions, phase }
    }

    /// The same invocation, started over with the same policy.
    pub open spec fn spec_restarted(self) -> RecoveryRun {
        RecoveryRun {
            dismiss_actions: self.dismiss_actions,
            phase: RecoveryRun::spec_fresh_phase(self.dismiss_actions@.len()),
        }
    }

    /// Start the procedure over, keeping the same policy: calling recovery
    /// again is always safe, whatever the previous invocation found.
    pub fn restart(&mut self)
        ensures
            *final(self) == old(self).spec_restarted(),
            final(self).wf(),
            !final(self).is_settled(),
    {
        self.phase = if self.dismiss_actions.len() == 0 {
            RecoveryPhase::Confirming(false)
        } else {
            RecoveryPhase::Dismissing(0)
        };
    }

    /// The action the driver must invoke next, while the procedure runs.
    pub open spec fn spec_current_action(self) -> RecoveryAction
        recommends
            !self.is_settled(),
            self.wf(),
    {
        match self.phase {
            RecoveryPhase::Dismissing(next) => self.dismiss_actions@[next as int],
            _ => RecoveryAction::ConfirmDialog,
        }
    }

    /// The action the driver must invoke next, or nothing when settled.
    pub fn current_action(&self) -> (a: Option<RecoveryAction>)
        requires
            self.wf(),
        ensures
            self.is_settled() <==> a is None,
            !self.is_settled() ==> a == Some(self.spec_current_action()),
    {
        match self.phase {
            RecoveryPhase::Dismissing(next) => Some(self.dismiss_actions[next]),
            RecoveryPhase::Confirming(_) => Some(RecoveryAction::ConfirmDialog),
            RecoveryPhase::Settled(_) => None,
        }
    }

    /// One transition: a dismiss action that matched skips the remaining
    /// dismiss actions and goes to the confirm action; one that had no
    /// effect hands over to the next dismiss action, or to the confirm
    /// action when the list is spent. The confirm action settles the
    /// procedure: `ActionTaken` when anything matched, else `NoActionFound`.
    pub open spec fn spec_feed(self, reply: RecoveryReply) -> RecoveryRun {
        let phase = match self.phase {
            RecoveryPhase::Dismissing(next) => match reply {
                RecoveryReply::Matched => RecoveryPhase::Confirming(true),
                RecoveryReply::NoEffect => if next + 1 < self.dismiss_actions@.len() {
                    RecoveryPhase::Dismissing((next + 1) as usize)
                } else {
                    RecoveryPhase::Confirming(false)
                },
            },
            RecoveryPhase::Confirming(matched) => if matched || reply == RecoveryReply::Matched {
                RecoveryPhase::Settled(RecoveryOutcome::ActionTaken)
            } else {
                RecoveryPhase::Settled(RecoveryOutcome::NoActionFound)
            },
            RecoveryPhase::Settled(out) => RecoveryPhase::Settled(out),
        };
        RecoveryRun { dismiss_actions: self.dismiss_actions, phase }
    }

    /// Record what the current action reported.
    pub fn feed(&mut self, reply: RecoveryReply)
        requires
            old(self).wf(),
            !old(self).is_settled(),
        ensures
            *final(self) == old(self).spec_feed(reply),
            final(self).wf(),
    {
        self.phase = match self.phase {
            RecoveryPhase::Dismissing(next) => match reply {
                RecoveryReply::Matched => RecoveryPhase::Confirming(true),
                RecoveryReply::NoEffect => {
                    proof {
                        assert(next < self.dismiss_actions@.len());
                    }
                    let total = self.dismiss_actions.len();
                    if next < total - 1 {
                        RecoveryPhase::Dismissing(next + 1)
                    } else {
                        RecoveryPhase::Confirming(false)
                    }
                },
            },
            RecoveryPhase::Confirming(matched) => {
                if matched || reply == RecoveryReply::Matched {
                    RecoveryPhase::Settled(RecoveryOutcome::ActionTaken)
                } else {
                    RecoveryPhase::Settled(RecoveryOutcome::NoActionFound)
                }
            },
            RecoveryPhase::Settled(out) => RecoveryPhase::Settled(out),
        };
    }
}

/// The dismiss actions the engine uses, ordered by specificity of selector,
/// falling back to text-content matching.
pub fn standard_dismiss_actions() -> (v: Vec<RecoveryAction>)
    ensures
        v@ =~= seq![RecoveryAction::DismissBySelector, RecoveryAction::DismissByText],
{
    let mut v: Vec<RecoveryAction> = Vec::new();
    v.push(RecoveryAction::DismissBySelector);
    v.push(RecoveryAction::DismissByText);
    v
}

/// Feeding a whole sequence of replies to the procedure: the state it ends
/// in and the outcome, if it settled.
pub open spec fn spec_run_recovery(
    r: RecoveryRun,
    replies: Seq<RecoveryReply>,
) -> (RecoveryRun, Option<RecoveryOutcome>)
    decreases replies.len(),
{
    if r.is_settled() {
        (r, match r.phase {
            RecoveryPhase::Settled(out) => Some(out),
            _ => None::<RecoveryOutcome>,
        })
    } else if replies.len() == 0 {
        (r, None::<RecoveryOutcome>)
    } else {
        spec_run_recovery(r.spec_feed(replies[0]), replies.skip(1))
    }
}

/// When nothing dismissible exists, every action reports no effect and the
/// procedure settles on `NoActionFound` after trying each dismiss action
/// once and the confirm action once. It never raises: `RecoveryOutcome`
/// has no error variant, and the transition is total over the replies.
pub proof fn lemma_nothing_to_dismiss_finds_nothing(r: RecoveryRun, replies: Seq<RecoveryReply>)
    requires
        r.wf(),
        r.phase == RecoveryRun::spec_fresh_phase(r.dismiss_actions@.len()),
        replies.len() == r.dismiss_actions@.len() + 1,
        forall|i: int| 0 <= i < replies.len() ==> replies[i] == RecoveryReply::NoEffect,
    ensures
        spec_run_recovery(r, replies).1 == Some(RecoveryOutcome::NoActionFound),
{
    lemma_dismissing_no_effect(r, replies);
}

/// The recovery procedure is idempotent: two successive invocations over
/// the same policy, each finding nothing dismissible, both settle on
/// `NoActionFound`, and neither errors.
pub proof fn lemma_recovery_idempotent(
    first: RecoveryRun,
    second: RecoveryRun,
    first_replies: Seq<RecoveryReply>,
    second_replies: Seq<RecoveryReply>,
)
    requires
        first.wf(),
        second.wf(),
        first.dismiss_actions@ == second.dismiss_actions@,
        first.phase == RecoveryRun::spec_fresh_phase(first.dismiss_actions@.len()),
        second.phase == RecoveryRun::spec_fresh_phase(second.dismiss_actions@.len()),
        first_replies.len() == first.dismiss_actions@.len() + 1,
        second_replies.len() == second.dismiss_actions@.len() + 1,
        forall|i: int| 0 <= i < first_replies.len() ==> first_replies[i] == RecoveryReply::NoEffect,
        forall|i: int| 0 <= i < second_replies.len()
            ==> second_replies[i] == RecoveryReply::NoEffect,
    ensures
        spec_run_recovery(first, first_replies).1 == Some(RecoveryOutcome::NoActionFound),
        spec_run_recovery(second, second_replies).1 == Some(RecoveryOutcome::NoActionFound),
{
    lemma_nothing_to_dismiss_finds_nothing(first, first_replies);
    lemma_nothing_to_dismiss_finds_nothing(second, second_replies);
}

/// Helper generalized over the position in the dismiss list.
proof fn lemma_dismissing_no_effect(r: RecoveryRun, replies: Seq<RecoveryReply>)
    requires
        r.wf(),
        !r.is_settled(),
        (r.phase matches RecoveryPhase::Confirming(m) ==> !m),
        (match r.phase {
            RecoveryPhase::Dismissing(next) => replies.len()
                == r.dismiss_actions@.len() - next + 1,
            _ => replies.len() == 1,
        }),
        forall|i: int| 0 <= i < replies.len() ==> replies[i] == RecoveryReply::NoEffect,
    ensures
        spec_run_recovery(r, replies).1 == Some(RecoveryOutcome::NoActionFound),
    decreases replies.len(),
{
    if replies.len() > 1 {
        assert(r.dismiss_actions.len() == r.dismiss_actions@.len());
        assert(forall|i: int| 0 <= i < replies.skip(1).len()
            ==> replies.skip(1)[i] == replies[i + 1]);
        lemma_dismissing_no_effect(r.spec_feed(replies[0]), replies.skip(1));
    } else {
        let fed = r.spec_feed(replies[0]);
        assert(fed.phase == RecoveryPhase::Settled(RecoveryOutcome::NoActionFound));
        assert(spec_run_recovery(fed, replies.skip(1)).1 == Some(
            RecoveryOutcome::NoActionFound,
        ));
    }
}

} // verus!
