//! The step execution contract, and an in-memory executor.
//!
//! Step kind implementations (package managers, VCS clients, archive tools)
//! live outside the core; the core sees them through `StepExecutor`. The
//! trait's contract pins down only bookkeeping the orchestration relies on:
//! which step indices were executed, in what order, what each execution
//! reported, and how often the network setup hook ran. What an execution
//! reports is the environment's business and is deliberately unconstrained.
//!
//! `ScriptedExecutor` is a verified in-memory implementation that replays a
//! prepared script of reports; tests and dry runs substitute it for the real
//! collaborators without weakening any contract.

use vstd::prelude::*;

use crate::error::BuildError;
use crate::error::ErrorClass;
use crate::step::ResolvedStep;

verus! {

/// How a step execution failed. A step signals only these three classes;
/// lock contention exists solely at the guard.
#[derive(Clone, Copy, PartialEq, Eq, Structural, Debug)]
pub enum StepFailure {
    Config,
    Transient,
    Fatal,
}

/// The error class a step failure surfaces as.
pub open spec fn class_of_failure(f: StepFailure) -> ErrorClass {
    match f {
        StepFailure::Config => ErrorClass::Config,
        StepFailure::Transient => ErrorClass::Transient,
        StepFailure::Fatal => ErrorClass::Fatal,
    }
}

/// The error class a step failure surfaces as.
pub fn failure_class(f: StepFailure) -> (c: ErrorClass)
    ensures
        c == class_of_failure(f),
{
    match f {
        StepFailure::Config => ErrorClass::Config,
        StepFailure::Transient => ErrorClass::Transient,
        StepFailure::Fatal => ErrorClass::Fatal,
    }
}

/// What one step execution reported: success, or a classified failure.
pub enum StepOutcome {
    Success,
    Failure { class: StepFailure, message: String },
}

/// Mathematical model of a step outcome.
#[verifier::ext_equal]
pub enum StepOutcomeModel {
    Success,
    Failure { class: StepFailure, message: Seq<char> },
}

impl View for StepOutcome {
    type V = StepOutcomeModel;

    open spec fn view(&self) -> StepOutcomeModel {
        match self {
            StepOutcome::Success => StepOutcomeModel::Success,
            StepOutcome::Failure { class, message } => StepOutcomeModel::Failure {
                class: *class,
                message: message@,
            },
        }
    }
}

/// A step execution's report: its outcome and how long it took.
pub struct StepReport {
    pub outcome: StepOutcome,
    pub duration_ms: u64,
}

/// Mathematical model of a step report.
#[verifier::ext_equal]
pub struct StepReportModel {
    pub outcome: StepOutcomeModel,
    pub duration: int,
}

impl View for StepReport {
    type V = StepReportModel;

    open spec fn view(&self) -> StepReportModel {
        StepReportModel { outcome: self.outcome@, duration: self.duration_ms as int }
    }
}

/// A copy of a report whose model equals the original's.
pub fn copy_report(a: &StepReport) -> (r: StepReport)
    ensures
        r@ == a@,
{
    StepReport {
        outcome: match &a.outcome {
            StepOutcome::Success => StepOutcome::Success,
            StepOutcome::Failure { class, message } => StepOutcome::Failure {
                class: *class,
                message: message.clone(),
            },
        },
        duration_ms: a.duration_ms,
    }
}

/// Execution contract between the pipeline and the step kind
/// implementations. Ghost state records what happened: the ordered indices
/// of executed steps, the reports they returned, and how often the network
/// setup hook ran. An implementation decides outcomes freely — the contract
/// promises bookkeeping, never success.
pub trait StepExecutor: Sized {
    /// Ordered step indices executed so far.
    spec fn executed(&self) -> Seq<int>;

    /// Reports returned so far, one per executed step, in order.
    spec fn reports(&self) -> Seq<StepReportModel>;

    /// How often the network setup hook has run.
    spec fn network_setups(&self) -> nat;

    /// Makes outbound resolution and connectivity available inside the
    /// build root. Runs no step; a failure is a transient environment
    /// failure.
    fn setup_network(&mut self) -> (r: Result<(), BuildError>)
        ensures
            final(self).executed() == old(self).executed(),
            final(self).reports() == old(self).reports(),
            final(self).network_setups() == old(self).network_setups() + 1,
            r is Err ==> r->Err_0.class == ErrorClass::Transient,
    ;

    /// Performs one resolved step against the build root, assuming exclusive
    /// ownership of it for the duration, and reports the outcome.
    fn execute_step(&mut self, index: usize, step: &ResolvedStep) -> (r: StepReport)
        ensures
            final(self).executed() == old(self).executed().push(index as int),
            final(self).reports() == old(self).reports().push(r@),
            final(self).network_setups() == old(self).network_setups(),
    ;
}

/// In-memory executor that replays a prepared script: the n-th execution
/// returns the n-th scripted report, and executions beyond the script
/// succeed with no duration. `network_ok` decides whether the network setup
/// hook succeeds.
pub struct ScriptedExecutor {
    pub script: Vec<StepReport>,
    pub network_ok: bool,
    pub calls: Vec<usize>,
    pub returned: Vec<StepReport>,
    pub setups: Vec<bool>,
}

impl ScriptedExecutor {
    /// A fresh executor that will replay the given script.
    pub fn new(script: Vec<StepReport>, network_ok: bool) -> (e: ScriptedExecutor)
        ensures
            e.executed() == Seq::<int>::empty(),
            e.reports() == Seq::<StepReportModel>::empty(),
            e.network_setups() == 0nat,
    {
        let e = ScriptedExecutor {
            script,
            network_ok,
            calls: Vec::new(),
            returned: Vec::new(),
            setups: Vec::new(),
        };
        proof {
            assert(e.executed() =~= Seq::<int>::empty());
            assert(e.reports() =~= Seq::<StepReportModel>::empty());
        }
        e
    }
}

impl StepExecutor for ScriptedExecutor {
    closed spec fn executed(&self) -> Seq<int> {
        self.calls@.map_values(|u: usize| u as int)
    }

    closed spec fn reports(&self) -> Seq<StepReportModel> {
        self.returned@.map_values(|r: StepReport| r@)
    }

    closed spec fn network_setups(&self) -> nat {
        self.setups@.len()
    }

    fn setup_network(&mut self) -> (r: Result<(), BuildError>)
        ensures
            r is Ok == old(self).network_ok,
    {
        self.setups.push(true);
        proof {
            assert(self.calls@ == old(self).calls@);
            assert(self.returned@ == old(self).returned@);
        }
        if self.network_ok {
            Ok(())
        } else {
            Err(
                BuildError {
                    class: ErrorClass::Transient,
                    step_index: None,
                    message: String::from_str("network setup failed"),
                },
            )
        }
    }

    fn execute_step(&mut self, index: usize, step: &ResolvedStep) -> (r: StepReport)
        ensures
            old(self).calls@.len() < old(self).script@.len() ==> r@ == old(self).script@[
                old(self).calls@.len() as int
            ]@,
            old(self).calls@.len() >= old(self).script@.len() ==> r@ == (StepReportModel {
                outcome: StepOutcomeModel::Success,
                duration: 0,
            }),
    {
        let position = self.calls.len();
        let report = if position < self.script.len() {
            copy_report(&self.script[position])
        } else {
            StepReport { outcome: StepOutcome::Success, duration_ms: 0 }
        };
        let stored = copy_report(&report);
        self.calls.push(index);
        self.returned.push(stored);
        proof {
            assert(self.executed() =~= old(self).executed().push(index as int));
            assert(self.reports() =~= old(self).reports().push(report@));
        }
        report
    }
}

} // verus!
