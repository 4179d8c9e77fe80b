//! Planned steps, their failure policies, and the judgement of their outcomes.
//!
//! A run is a sequence of steps performed in order by the caller. After each
//! one the caller hands its outcome to [`judge`], which says whether the run
//! goes on, goes on after a warning, or stops with a failure.

use vstd::prelude::*;

use crate::command::{words, CommandSpec};
use crate::failure::{Failure, SyncFailure};
use crate::mirror::SyncPaths;

verus! {

/// A message for the operator.
#[derive(Debug, Clone, PartialEq, Eq)]
pub enum Notice {
    /// The usage text.
    Help,
    /// What to do once the app launches in the named simulator.
    LaunchGuidance(String),
    /// The smoke build finished.
    SmokeFinished,
}

/// What the caller performs for one step.
#[derive(Debug, Clone, PartialEq, Eq)]
pub enum Action {
    /// Check that the path exists. It succeeds exactly when it does.
    Exists(String),
    /// Spawn the process with inherited streams and wait for it. It succeeds
    /// exactly when the process exits with status zero.
    Run(CommandSpec),
    /// Remove the directory and everything under it, if it exists.
    RemoveTree(String),
    /// Stage the runner artifacts, as planned by
    /// [`crate::mirror::sync_runner_artifacts`].
    Sync(SyncPaths),
    /// Show the notice.
    Say(Notice),
}

/// How a step that did not succeed affects the run.
#[derive(Debug, Clone, PartialEq, Eq)]
pub enum Policy {
    /// The run stops with this failure.
    Required(Failure),
    /// The run goes on silently.
    Ignorable,
    /// The run goes on after a warning.
    IgnorableWithWarning,
}

/// One planned step: an action and the policy for its failure.
#[derive(Debug, Clone, PartialEq, Eq)]
pub struct Step {
    pub action: Action,
    pub policy: Policy,
}

/// What came of performing a step.
#[derive(Debug, Clone, PartialEq, Eq)]
pub enum Outcome {
    Succeeded,
    Failed,
    /// Staging failed for the given reason.
    SyncFailed(SyncFailure),
}

/// What the run does after a step.
#[derive(Debug, Clone, PartialEq, Eq)]
pub enum Verdict {
    Proceed,
    Warn,
    Stop(Failure),
}

/// The verdict on a step's outcome. Success always proceeds; a staging step
/// that reports its own failure stops with it; otherwise the step's policy
/// decides.
pub open spec fn verdict(step: Step, outcome: Outcome) -> Verdict {
    match outcome {
        Outcome::Succeeded => Verdict::Proceed,
        _ => if step.action is Sync && outcome is SyncFailed {
            Verdict::Stop(Failure::Sync(outcome->SyncFailed_0))
        } else {
            match step.policy {
                Policy::Required(f) => Verdict::Stop(f),
                Policy::Ignorable => Verdict::Proceed,
                Policy::IgnorableWithWarning => Verdict::Warn,
            }
        },
    }
}

/// How a run of `steps` ends when the `i`-th step performed has the `i`-th
/// outcome: with the failure of the first step that stops it, else success.
pub open spec fn run_result(steps: Seq<Step>, outcomes: Seq<Outcome>) -> Result<(), Failure>
    decreases steps.len(),
{
    if steps.len() == 0 || outcomes.len() == 0 {
        Ok(())
    } else {
        match verdict(steps[0], outcomes[0]) {
            Verdict::Stop(f) => Err(f),
            _ => run_result(steps.drop_first(), outcomes.drop_first()),
        }
    }
}

/// The step runs the program with these arguments, in this directory.
pub open spec fn runs(
    s: Step,
    program: Seq<char>,
    args: Seq<Seq<char>>,
    cwd: Option<Seq<char>>,
) -> bool {
    &&& s.action is Run
    &&& s.action->Run_0.program@ == program
    &&& words(s.action->Run_0.args@) == args
    &&& match s.action->Run_0.cwd {
        Some(c) => cwd == Some(c@),
        None => cwd is None,
    }
}

/// The step checks that `path` exists.
pub open spec fn checks(s: Step, path: Seq<char>) -> bool {
    s.action is Exists && s.action->Exists_0@ == path
}

/// Decides how the run goes on after `step` had `outcome`.
pub fn judge(step: Step, outcome: Outcome) -> (v: Verdict)
    ensures
        v == verdict(step, outcome),
{
    match outcome {
        Outcome::Succeeded => Verdict::Proceed,
        Outcome::SyncFailed(e) if matches!(step.action, Action::Sync(_)) => Verdict::Stop(
            Failure::Sync(e),
        ),
        _ => match step.policy {
            Policy::Required(f) => Verdict::Stop(f),
            Policy::Ignorable => Verdict::Proceed,
            Policy::IgnorableWithWarning => Verdict::Warn,
        },
    }
}

proof fn lemma_run_result_at(steps: Seq<Step>, outcomes: Seq<Outcome>, i: int)
    requires
        0 <= i < steps.len(),
        steps.len() == outcomes.len(),
    ensures
        run_result(steps.skip(i), outcomes.skip(i)) == match verdict(steps[i], outcomes[i]) {
            Verdict::Stop(f) => Err(f),
            _ => run_result(steps.skip(i + 1), outcomes.skip(i + 1)),
        },
{
    assert(steps.skip(i).drop_first() =~= steps.skip(i + 1));
    assert(outcomes.skip(i).drop_first() =~= outcomes.skip(i + 1));
}

/// How a run of `steps` ends, given the outcome each step had or would have
/// had; outcomes after the step that stops the run do not matter.
pub fn settle(steps: Vec<Step>, outcomes: Vec<Outcome>) -> (r: Result<(), Failure>)
    requires
        steps@.len() == outcomes@.len(),
    ensures
        r == run_result(steps@, outcomes@),
{
    let ghost all_steps = steps@;
    let ghost all_outcomes = outcomes@;
    let mut steps = steps;
    let mut outcomes = outcomes;
    let mut r: Result<(), Failure> = Ok(());
    assert(all_steps.skip(all_steps.len() as int).len() == 0);
    while steps.len() > 0
        invariant
            steps@.len() == outcomes@.len(),
            all_steps.len() == all_outcomes.len(),
            steps@.len() <= all_steps.len(),
            steps@ == all_steps.subrange(0, steps@.len() as int),
            outcomes@ == all_outcomes.subrange(0, outcomes@.len() as int),
            r == run_result(all_steps.skip(steps@.len() as int), all_outcomes.skip(
                steps@.len() as int,
            )),
        decreases steps@.len(),
    {
        let ghost i = steps@.len() - 1;
        let step = steps.pop().unwrap();
        let outcome = outcomes.pop().unwrap();
        proof {
            lemma_run_result_at(all_steps, all_outcomes, i);
        }
        match judge(step, outcome) {
            Verdict::Stop(f) => {
                r = Err(f);
            },
            _ => {},
        }
    }
    assert(all_steps.skip(0) =~= all_steps);
    assert(all_outcomes.skip(0) =~= all_outcomes);
    r
}

} // verus!
