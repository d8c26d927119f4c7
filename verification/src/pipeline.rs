//! The pipeline runner: strictly sequential, fail-fast execution of a
//! recipe's steps against one context.
//!
//! For each step in declared order: dispatch check, resolution (feeding the
//! context's fingerprint accumulator), execution, and a timing record. The
//! first non-success stops the run at once — steps after a failing one are
//! never executed — and surfaces the failing step's index, kind
//! classification, and message. Success requires every step to complete;
//! there is no partial success.

use vstd::prelude::*;

use crate::context::Context;
use crate::context::TimingEntry;
use crate::error::BuildError;
use crate::error::ErrorClass;
use crate::executor::StepExecutor;
use crate::executor::StepOutcome;
use crate::executor::StepFailure;
use crate::executor::StepOutcomeModel;
use crate::executor::class_of_failure;
use crate::executor::failure_class;
use crate::executor::StepReportModel;
use crate::resolve::World;
use crate::resolve::WorldModel;
use crate::resolve::dispatch_ok;
use crate::resolve::resolve_step;
use crate::resolve::resolve_step_model;
use crate::resolve::dispatch_check;
use crate::step::DistroFamily;
use crate::step::StepKind;
use crate::step::StepSpec;
use crate::step::StepSpecModel;
use crate::step::ResolvedStepModel;
use crate::step::kind_model;
use crate::step::spec_steps_model;
use crate::step::steps_need_network;
use crate::step::steps_need_network_model;

verus! {

/// A step passes its pre-execution checks: it is valid for the context's
/// distro family and all its declared inputs resolve.
pub open spec fn step_ok(
    s: StepSpecModel,
    distro: Option<DistroFamily>,
    w: WorldModel,
) -> bool {
    dispatch_ok(s, distro) && resolve_step_model(s, w) is Some
}

/// The first k steps all pass their pre-execution checks.
pub open spec fn prefix_ok(
    sm: Seq<StepSpecModel>,
    distro: Option<DistroFamily>,
    w: WorldModel,
    k: int,
) -> bool {
    forall|i: int| 0 <= i < k ==> step_ok(sm[i], distro, w)
}

/// The effective identities of the first k steps, in declared order.
pub open spec fn resolved_prefix(
    sm: Seq<StepSpecModel>,
    w: WorldModel,
    k: int,
) -> Seq<ResolvedStepModel> {
    Seq::new(k as nat, |i: int| resolve_step_model(sm[i], w)->0)
}

/// The step indices 0, 1, ..., k-1 in order: exactly the executions a run
/// that reached step k has performed.
pub open spec fn index_run(k: int) -> Seq<int> {
    Seq::new(k as nat, |i: int| i)
}

/// The first k reports past `base` all say success.
pub open spec fn reports_successful(reports: Seq<StepReportModel>, base: int, k: int) -> bool {
    forall|i: int| 0 <= i < k ==> (#[trigger] reports[base + i]).outcome is Success
}

/// The timing records for the first k executed steps: one per step, in
/// order, carrying the step's index, kind and reported duration.
pub open spec fn timing_matches(
    timing: Seq<(int, StepKind, int)>,
    base_t: int,
    sm: Seq<StepSpecModel>,
    reports: Seq<StepReportModel>,
    base_r: int,
    k: int,
) -> bool {
    forall|i: int|
        0 <= i < k ==> #[trigger] timing[base_t + i] == (
            i,
            kind_model(sm[i]),
            reports[base_r + i].duration,
        )
}

/// Law: fail-fast ordering. When a run of n steps fails at step k, the
/// executor's log grew by the indices 0..=k alone: every executed index is
/// at most k, so steps k+1..n were never executed.
pub proof fn lemma_fail_fast(ex_pre: Seq<int>, ex_post: Seq<int>, k: int, n: int)
    requires
        0 <= k < n,
        ex_post == ex_pre + index_run(k + 1),
    ensures
        ex_post.len() == ex_pre.len() + k + 1,
        forall|j: int| ex_pre.len() <= j < ex_post.len() ==> ex_post[j] <= k,
{
    assert forall|j: int| ex_pre.len() <= j < ex_post.len() implies ex_post[j] <= k by {
        assert(ex_post[j] == index_run(k + 1)[j - ex_pre.len()]);
    }
}

/// What a failed run left behind: the shape of every `run_pipeline` error.
/// Either the network setup hook ran once and failed before any step, or
/// some step k failed — after a prefix of k fully successful steps — either
/// at its pre-execution checks (nothing executed at k, a distro mismatch
/// fatal, an unresolvable input a configuration error) or in execution (k
/// executed, its report the failure the error carries). In either shape the
/// executor's log, the fingerprint accumulator and the timing log grew by
/// exactly the steps that ran.
pub open spec fn pipeline_failure_post(
    sm: Seq<StepSpecModel>,
    distro: Option<DistroFamily>,
    w: WorldModel,
    e: BuildError,
    ex0: Seq<int>,
    ex1: Seq<int>,
    rep0: Seq<StepReportModel>,
    rep1: Seq<StepReportModel>,
    res0: Seq<ResolvedStepModel>,
    res1: Seq<ResolvedStepModel>,
    tim0: Seq<(int, StepKind, int)>,
    tim1: Seq<(int, StepKind, int)>,
    net0: nat,
    net1: nat,
) -> bool {
    let n = sm.len() as int;
    ||| (steps_need_network_model(sm) && e.class == ErrorClass::Transient && e.step_index is None
        && net1 == net0 + 1 && ex1 == ex0 && rep1 == rep0 && res1 == res0 && tim1 == tim0)
    ||| (exists|k: int|
        0 <= k < n && e.step_index == Some(k as usize) && prefix_ok(sm, distro, w, k)
            && reports_successful(rep1, rep0.len() as int, k) && net1 == net0 + (
        if steps_need_network_model(sm) {
            1nat
        } else {
            0nat
        }) && ((!step_ok(sm[k], distro, w) && ex1 == ex0 + index_run(k) && rep1.len()
            == rep0.len() + k && res1 == res0 + resolved_prefix(sm, w, k) && tim1.len()
            == tim0.len() + k && (!dispatch_ok(sm[k], distro) ==> e.class == ErrorClass::Fatal)
            && (dispatch_ok(sm[k], distro) ==> e.class == ErrorClass::Config)) || (step_ok(
            sm[k],
            distro,
            w,
        ) && ex1 == ex0 + index_run(k + 1) && rep1.len() == rep0.len() + k + 1 && (
        exists|f: StepFailure|
            rep1.last().outcome == (StepOutcomeModel::Failure { class: f, message: e.message@ })
                && e.class == class_of_failure(f)) && res1 == res0 + resolved_prefix(sm, w, k + 1)
            && tim1.len() == tim0.len() + k + 1)) && timing_matches(
            tim1,
            tim0.len() as int,
            sm,
            rep1,
            rep0.len() as int,
            (tim1.len() - tim0.len()) as int,
        ))
}

/// Runs the steps in declared order against one context, fail-fast.
///
/// On success, every step passed its checks and executed successfully: the
/// executor ran exactly the indices 0..n in order, the fingerprint
/// accumulator gained exactly the n effective identities, and one timing
/// record per step was appended. On failure at step k, steps k+1..n were
/// never executed, the error carries k and its classification, and the
/// context's accumulator holds only identities resolved up to and including
/// k. If any step needs the network the setup hook runs once, before any
/// step; its failure fails the run before the first step.
pub fn run_pipeline<E: StepExecutor>(
    ctx: &mut Context,
    steps: &Vec<StepSpec>,
    world: &World,
    exec: &mut E,
) -> (r: Result<(), BuildError>)
    ensures
        final(ctx)@.container == old(ctx)@.container,
        final(ctx)@.version == old(ctx)@.version,
        final(ctx)@.settings == old(ctx)@.settings,
        final(ctx)@.distro == old(ctx)@.distro,
        final(ctx)@.build_root == old(ctx)@.build_root,
        final(exec).network_setups() <= old(exec).network_setups() + 1,
        !steps_need_network_model(spec_steps_model(steps@)) ==> final(exec).network_setups()
            == old(exec).network_setups(),
        r is Err ==> r->Err_0.class != ErrorClass::LockContention,
        match r {
            Ok(()) => {
                let sm = spec_steps_model(steps@);
                let n = sm.len() as int;
                prefix_ok(sm, old(ctx)@.distro, world@, n) && final(ctx)@.resolved == old(
                    ctx,
                )@.resolved + resolved_prefix(sm, world@, n) && final(exec).executed() == old(
                    exec,
                ).executed() + index_run(n) && final(exec).reports().len() == old(
                    exec,
                ).reports().len() + n && reports_successful(
                    final(exec).reports(),
                    old(exec).reports().len() as int,
                    n,
                ) && final(ctx)@.timing.len() == old(ctx)@.timing.len() + n && timing_matches(
                    final(ctx)@.timing,
                    old(ctx)@.timing.len() as int,
                    sm,
                    final(exec).reports(),
                    old(exec).reports().len() as int,
                    n,
                ) && (steps_need_network_model(sm) ==> final(exec).network_setups() == old(
                    exec,
                ).network_setups() + 1)
            },
            Err(e) => pipeline_failure_post(
                spec_steps_model(steps@),
                old(ctx)@.distro,
                world@,
                e,
                old(exec).executed(),
                final(exec).executed(),
                old(exec).reports(),
                final(exec).reports(),
                old(ctx)@.resolved,
                final(ctx)@.resolved,
                old(ctx)@.timing,
                final(ctx)@.timing,
                old(exec).network_setups(),
                final(exec).network_setups(),
            ),
        },
{
    let ghost sm = spec_steps_model(steps@);
    let ghost ctx0 = ctx@;
    let ghost ex0 = exec.executed();
    let ghost rep0 = exec.reports();
    let ghost net0 = exec.network_setups();

    if steps_need_network(steps) {
        match exec.setup_network() {
            Ok(()) => {},
            Err(e) => {
                return Err(
                    BuildError {
                        class: ErrorClass::Transient,
                        step_index: None,
                        message: e.message,
                    },
                );
            },
        }
    }

    let n = steps.len();
    let mut idx: usize = 0;
    #[verifier::loop_isolation(false)]
    while idx < n
        invariant
            n == steps.len(),
            sm == spec_steps_model(steps@),
            0 <= idx <= n,
            ctx@.container == ctx0.container,
            ctx@.version == ctx0.version,
            ctx@.settings == ctx0.settings,
            ctx@.distro == ctx0.distro,
            ctx@.build_root == ctx0.build_root,
            prefix_ok(sm, ctx0.distro, world@, idx as int),
            ctx@.resolved == ctx0.resolved + resolved_prefix(sm, world@, idx as int),
            exec.executed() == ex0 + index_run(idx as int),
            exec.reports().len() == rep0.len() + idx,
            reports_successful(exec.reports(), rep0.len() as int, idx as int),
            ctx@.timing.len() == ctx0.timing.len() + idx,
            timing_matches(
                ctx@.timing,
                ctx0.timing.len() as int,
                sm,
                exec.reports(),
                rep0.len() as int,
                idx as int,
            ),
            exec.network_setups() == net0 + (if steps_need_network_model(sm) {
                1nat
            } else {
                0nat
            }),
        decreases n - idx,
    {
        proof {
            assert(sm[idx as int] == steps@[idx as int]@);
        }
        match dispatch_check(&steps[idx], ctx.distro) {
            Ok(()) => {},
            Err(e) => {
                proof {
                    assert(!step_ok(sm[idx as int], ctx0.distro, world@));
                }
                return Err(
                    BuildError {
                        class: e.class,
                        step_index: Some(idx),
                        message: e.message,
                    },
                );
            },
        }
        let resolved_step = match resolve_step(&steps[idx], world) {
            Ok(rs) => rs,
            Err(e) => {
                proof {
                    assert(dispatch_ok(sm[idx as int], ctx0.distro));
                    assert(!step_ok(sm[idx as int], ctx0.distro, world@));
                }
                return Err(
                    BuildError {
                        class: e.class,
                        step_index: Some(idx),
                        message: e.message,
                    },
                );
            },
        };
        let kind = steps[idx].kind();
        let ghost res_pre = ctx@.resolved;
        let ghost ex_pre = exec.executed();
        let ghost tim_pre = ctx@.timing;
        let ghost rep_pre = exec.reports();
        let report = exec.execute_step(idx, &resolved_step);
        ctx.resolved.push(resolved_step);
        ctx.timing_log.push(
            TimingEntry { index: idx, kind, duration_ms: report.duration_ms },
        );
        proof {
            assert(resolve_step_model(sm[idx as int], world@) == Some(resolved_step@));
            assert(ctx@.resolved =~= res_pre.push(resolved_step@));
            assert(res_pre.push(resolved_step@) =~= ctx0.resolved + resolved_prefix(
                sm,
                world@,
                idx as int + 1,
            ));
            assert(exec.executed() == ex_pre.push(idx as int));
            assert(ex_pre.push(idx as int) =~= ex0 + index_run(idx as int + 1));
            assert(exec.reports() == rep_pre.push(report@));
            assert(ctx@.timing =~= tim_pre.push(
                (idx as int, kind_model(sm[idx as int]), report@.duration),
            ));
            assert(forall|i: int|
                0 <= i < idx ==> #[trigger] ctx@.timing[ctx0.timing.len() + i] == tim_pre[
                    ctx0.timing.len() + i
                ]);
            assert(forall|i: int|
                0 <= i < idx ==> #[trigger] exec.reports()[rep0.len() + i] == rep_pre[rep0.len()
                    + i]);
            assert(timing_matches(
                ctx@.timing,
                ctx0.timing.len() as int,
                sm,
                exec.reports(),
                rep0.len() as int,
                idx as int + 1,
            ));
        }
        match report.outcome {
            StepOutcome::Success => {},
            StepOutcome::Failure { class, message } => {
                return Err(
                    BuildError {
                        class: failure_class(class),
                        step_index: Some(idx),
                        message,
                    },
                );
            },
        }
        idx += 1;
    }
    proof {
        assert(ctx@.resolved =~= ctx0.resolved + resolved_prefix(sm, world@, n as int));
    }
    Ok(())
}

} // verus!
