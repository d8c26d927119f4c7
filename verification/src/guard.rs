//! The build guard: the top-level entry point of the core.
//!
//! A build runs as lock → cache check → pipeline → atomic commit → unlock.
//! The guard acquires the target's exclusive lock (or reports contention)
//! and then checks the cache in two stages: the cheap gate compares the
//! declared fingerprint of the recipe and settings with the committed one,
//! and only when it matches, the steps are resolved under the current world
//! — executing nothing — and the resulting resolved fingerprint is compared
//! with the committed one. Only when both match is the build a cache hit
//! with zero step executions; a change in any resolved step parameter, even
//! with the declared inputs unchanged, forces the rebuild path. Otherwise
//! the pipeline runs and, only on full success, the new artifact is
//! committed with its fingerprints in one atomic storage transition. The
//! lock is released on every path; a failed build changes no committed
//! record.

use vstd::prelude::*;

use crate::context::Context;
use crate::error::BuildError;
use crate::error::ErrorClass;
use crate::executor::StepExecutor;
use crate::fingerprint::ResolvedFingerprint;
use crate::fingerprint::declared_fingerprint;
use crate::fingerprint::declared_fingerprint_model;
use crate::fingerprint::eq_fingerprint;
use crate::fingerprint::eq_resolved_fingerprint;
use crate::fingerprint::resolved_fingerprint_model;
use crate::kv::copy_pairs;
use crate::pipeline::index_run;
use crate::pipeline::pipeline_failure_post;
use crate::pipeline::prefix_ok;
use crate::pipeline::reports_successful;
use crate::pipeline::resolved_prefix;
use crate::pipeline::run_pipeline;
use crate::pipeline::step_ok;
use crate::pipeline::timing_matches;
use crate::recipe::Recipe;
use crate::recipe::RecipeModel;
use crate::recipe::Settings;
use crate::resolve::World;
use crate::resolve::WorldModel;
use crate::resolve::resolve_all;
use crate::resolve::resolve_step_model;
use crate::step::ResolvedStepModel;
use crate::step::copy_resolved_steps;
use crate::step::resolved_steps_model;
use crate::step::steps_need_network_model;
use crate::store::ArtifactRef;
use crate::store::CommittedRecord;
use crate::store::CommittedRecordModel;
use crate::store::LockStore;
use crate::store::TargetKey;

verus! {

/// The storage key of a recipe's build target.
pub open spec fn target_of(r: RecipeModel) -> (Seq<char>, Seq<char>) {
    (r.container, r.version)
}

/// The committed record a successful build of these inputs installs: keyed
/// by the declared fingerprint, carrying the resolved fingerprint and the
/// artifact at the context's build root.
pub open spec fn committed_record_model(
    r: RecipeModel,
    s: Seq<(Seq<char>, Seq<char>)>,
    resolved: Seq<ResolvedStepModel>,
    build_root: Seq<char>,
) -> CommittedRecordModel {
    CommittedRecordModel {
        declared: declared_fingerprint_model(r, s),
        resolved: resolved_fingerprint_model(r, s, resolved),
        artifact: build_root,
    }
}

/// A build of this recipe and settings would short-circuit at a cache hit
/// under this world: the target's last committed record is keyed by the same
/// declared fingerprint, every step still resolves, and the effective
/// identities they resolve to under the current world give exactly the
/// committed resolved fingerprint. A build whose world resolves any step
/// parameter differently is not cache-hit-ready: same recipe, different
/// resolved world state invalidates the cache.
pub open spec fn cache_hit_ready(
    committed: Map<(Seq<char>, Seq<char>), CommittedRecordModel>,
    r: RecipeModel,
    s: Seq<(Seq<char>, Seq<char>)>,
    w: WorldModel,
) -> bool {
    &&& committed.contains_key(target_of(r))
    &&& committed[target_of(r)].declared == declared_fingerprint_model(r, s)
    &&& forall|i: int|
        0 <= i < r.steps.len() ==> resolve_step_model(#[trigger] r.steps[i], w) is Some
    &&& committed[target_of(r)].resolved == resolved_fingerprint_model(
        r,
        s,
        resolved_prefix(r.steps, w, r.steps.len() as int),
    )
}

/// What a finished build reports: a cache hit that reused the committed
/// artifact, or a fresh artifact built and committed by this call.
pub enum BuildOutcome {
    CacheHit { artifact: ArtifactRef },
    Built { artifact: ArtifactRef },
}

/// Law: idempotent caching. A successful build leaves its target
/// cache-hit-ready for its own recipe, settings and world; presenting the
/// same recipe and settings again with no relevant external-world change —
/// every step resolves to the same effective identity as before — finds it
/// still ready, so the second build short-circuits at a cache hit and, by
/// `build`'s contract, executes zero steps.
pub proof fn lemma_idempotent_caching(
    committed: Map<(Seq<char>, Seq<char>), CommittedRecordModel>,
    r1: RecipeModel,
    s1: Seq<(Seq<char>, Seq<char>)>,
    w1: WorldModel,
    r2: RecipeModel,
    s2: Seq<(Seq<char>, Seq<char>)>,
    w2: WorldModel,
)
    requires
        cache_hit_ready(committed, r1, s1, w1),
        r2 == r1,
        s2 == s1,
        forall|i: int|
            0 <= i < r1.steps.len() ==> resolve_step_model(#[trigger] r1.steps[i], w2)
                == resolve_step_model(r1.steps[i], w1),
    ensures
        cache_hit_ready(committed, r2, s2, w2),
{
    assert(resolved_prefix(r2.steps, w2, r2.steps.len() as int) =~= resolved_prefix(
        r1.steps,
        w1,
        r1.steps.len() as int,
    ));
}

/// Law: fingerprint sensitivity at the cache. If any step of the recipe now
/// resolves to an effective identity other than the one the committed record
/// holds for it, the cache check cannot hit: the build is forced onto the
/// rebuild path.
pub proof fn lemma_resolved_change_forces_rebuild(
    committed: Map<(Seq<char>, Seq<char>), CommittedRecordModel>,
    r: RecipeModel,
    s: Seq<(Seq<char>, Seq<char>)>,
    w: WorldModel,
    i: int,
)
    requires
        0 <= i < r.steps.len(),
        committed.contains_key(target_of(r)),
        committed[target_of(r)].resolved.steps.len() == r.steps.len(),
        committed[target_of(r)].resolved.steps[i] != resolve_step_model(r.steps[i], w)->0,
    ensures
        !cache_hit_ready(committed, r, s, w),
{
    if cache_hit_ready(committed, r, s, w) {
        assert(committed[target_of(r)].resolved.steps[i] == resolved_prefix(
            r.steps,
            w,
            r.steps.len() as int,
        )[i]);
    }
}

/// Runs one guarded build of `recipe` with `settings` against the context.
///
/// - The target's lock is held for the duration and released on every path.
/// - Lock contention is reported exactly when the lock was already held, and
///   then nothing is read, executed or committed.
/// - When the target is cache-hit-ready under the current world — committed
///   declared fingerprint unchanged and every step resolving to its
///   committed effective identity — the build is a cache hit: zero steps
///   execute and the committed artifact is returned.
/// - A fresh build that returns `Built` executed every step successfully —
///   no partial completion is ever reported as success — and committed the
///   new record, declared and resolved fingerprints and artifact whole, in
///   one atomic storage transition.
/// - Any failure leaves every committed record exactly as it was and carries
///   the failing step's index and classification as the pipeline reported
///   them, or is the commit's own transient storage failure.
pub fn build<S: LockStore, E: StepExecutor>(
    store: &mut S,
    exec: &mut E,
    ctx: &mut Context,
    recipe: &Recipe,
    settings: &Settings,
    world: &World,
) -> (r: Result<BuildOutcome, BuildError>)
    requires
        old(store).wf(),
        old(ctx)@.resolved == Seq::<ResolvedStepModel>::empty(),
    ensures
        final(store).wf(),
        final(store).locked() == old(store).locked(),
        old(store).locked().contains(target_of(recipe@)) <==> (r is Err && r->Err_0.class
            == ErrorClass::LockContention),
        r is Err && r->Err_0.class == ErrorClass::LockContention ==> final(store).committed()
            == old(store).committed() && final(exec).executed() == old(exec).executed()
            && final(exec).reports() == old(exec).reports() && final(exec).network_setups()
            == old(exec).network_setups() && final(ctx)@ == old(ctx)@,
        !old(store).locked().contains(target_of(recipe@)) && cache_hit_ready(
            old(store).committed(),
            recipe@,
            settings@,
            world@,
        ) ==> r is Ok && r->Ok_0 is CacheHit,
        r is Ok && r->Ok_0 is CacheHit ==> cache_hit_ready(
            old(store).committed(),
            recipe@,
            settings@,
            world@,
        ) && r->Ok_0->CacheHit_artifact@ == old(store).committed()[target_of(recipe@)].artifact
            && final(store).committed() == old(store).committed() && final(exec).executed()
            == old(exec).executed() && final(exec).reports() == old(exec).reports()
            && final(exec).network_setups() == old(exec).network_setups() && final(ctx)@ == old(
            ctx,
        )@,
        r is Ok && r->Ok_0 is Built ==> {
            let sm = recipe@.steps;
            let n = sm.len() as int;
            &&& !cache_hit_ready(old(store).committed(), recipe@, settings@, world@)
            &&& prefix_ok(sm, old(ctx)@.distro, world@, n)
            &&& final(exec).executed() == old(exec).executed() + index_run(n)
            &&& final(exec).reports().len() == old(exec).reports().len() + n
            &&& reports_successful(final(exec).reports(), old(exec).reports().len() as int, n)
            &&& final(ctx)@.resolved == resolved_prefix(sm, world@, n)
            &&& final(ctx)@.timing.len() == old(ctx)@.timing.len() + n
            &&& timing_matches(
                final(ctx)@.timing,
                old(ctx)@.timing.len() as int,
                sm,
                final(exec).reports(),
                old(exec).reports().len() as int,
                n,
            )
            &&& (steps_need_network_model(sm) ==> final(exec).network_setups() == old(
                exec,
            ).network_setups() + 1)
            &&& final(store).committed() == old(store).committed().insert(
                target_of(recipe@),
                committed_record_model(
                    recipe@,
                    settings@,
                    resolved_prefix(sm, world@, n),
                    old(ctx)@.build_root,
                ),
            )
            &&& r->Ok_0->Built_artifact@ == old(ctx)@.build_root
            &&& cache_hit_ready(final(store).committed(), recipe@, settings@, world@)
        },
        r is Err ==> final(store).committed() == old(store).committed(),
        r is Err && r->Err_0.class != ErrorClass::LockContention ==> {
            let sm = recipe@.steps;
            let n = sm.len() as int;
            ||| pipeline_failure_post(
                sm,
                old(ctx)@.distro,
                world@,
                r->Err_0,
                old(exec).executed(),
                final(exec).executed(),
                old(exec).reports(),
                final(exec).reports(),
                old(ctx)@.resolved,
                final(ctx)@.resolved,
                old(ctx)@.timing,
                final(ctx)@.timing,
                old(exec).network_setups(),
                final(exec).network_setups(),
            )
            ||| (r->Err_0.class == ErrorClass::Transient && prefix_ok(
                sm,
                old(ctx)@.distro,
                world@,
                n,
            ) && final(exec).executed() == old(exec).executed() + index_run(n)
                && final(exec).reports().len() == old(exec).reports().len() + n
                && reports_successful(final(exec).reports(), old(exec).reports().len() as int, n)
                && final(ctx)@.resolved == resolved_prefix(sm, world@, n))
        },
        r is Err ==> exists|k: int|
            0 <= k <= recipe@.steps.len() && final(exec).executed() == old(exec).executed()
                + index_run(k),
{
    let target = TargetKey {
        container: recipe.container.clone(),
        version: recipe.version.clone(),
    };
    let declared = declared_fingerprint(recipe, settings);
    let handle = match store.acquire(&target) {
        Some(h) => h,
        None => {
            proof {
                assert(exec.executed() =~= old(exec).executed() + index_run(0));
            }
            return Err(
                BuildError {
                    class: ErrorClass::LockContention,
                    step_index: None,
                    message: String::from_str("another build of this target is in progress"),
                },
            );
        },
    };
    let ghost locked_after_acquire = store.locked();
    proof {
        assert(locked_after_acquire.remove(target@) =~= old(store).locked());
    }
    match store.read_committed(&target) {
        Some(record) => {
            if eq_fingerprint(&declared, &record.declared) {
                // the cheap declared gate matched; resolve under the current
                // world, executing nothing, and compare the resolved
                // fingerprints before declaring a hit
                match resolve_all(&recipe.steps, world) {
                    Ok(resolved_now) => {
                        let ghost rn = resolved_steps_model(resolved_now@);
                        let candidate = ResolvedFingerprint {
                            container: recipe.container.clone(),
                            version: recipe.version.clone(),
                            recipe_settings: copy_pairs(&recipe.settings),
                            build_settings: copy_pairs(&settings.entries),
                            steps: resolved_now,
                        };
                        proof {
                            assert(rn =~= resolved_prefix(
                                recipe@.steps,
                                world@,
                                recipe@.steps.len() as int,
                            ));
                            assert(candidate@ =~= resolved_fingerprint_model(
                                recipe@,
                                settings@,
                                resolved_prefix(recipe@.steps, world@, recipe@.steps.len() as int),
                            ));
                        }
                        if eq_resolved_fingerprint(&candidate, &record.resolved) {
                            proof {
                                assert forall|i: int|
                                    0 <= i < recipe@.steps.len() implies resolve_step_model(
                                    #[trigger] recipe@.steps[i],
                                    world@,
                                ) is Some by {
                                    assert(resolve_step_model(
                                        crate::step::spec_steps_model(recipe.steps@)[i],
                                        world@,
                                    ) == Some(rn[i]));
                                }
                                assert(target@ == target_of(recipe@));
                                assert(cache_hit_ready(
                                    old(store).committed(),
                                    recipe@,
                                    settings@,
                                    world@,
                                ));
                            }
                            store.release(handle);
                            return Ok(BuildOutcome::CacheHit { artifact: record.artifact });
                        }
                    },
                    Err(_) => {
                        // some step no longer resolves: not a hit; the
                        // pipeline below surfaces the configuration error
                    },
                }
            }
        },
        None => {},
    }
    match run_pipeline(ctx, &recipe.steps, world, exec) {
        Ok(()) => {
            let ghost sm = recipe@.steps;
            let ghost n = sm.len() as int;
            proof {
                assert(ctx@.resolved =~= resolved_prefix(sm, world@, n));
            }
            let resolved_fp = ResolvedFingerprint {
                container: recipe.container.clone(),
                version: recipe.version.clone(),
                recipe_settings: copy_pairs(&recipe.settings),
                build_settings: copy_pairs(&settings.entries),
                steps: copy_resolved_steps(&ctx.resolved),
            };
            let new_record = CommittedRecord {
                declared,
                resolved: resolved_fp,
                artifact: ArtifactRef { root: ctx.build_root.clone() },
            };
            proof {
                assert(new_record@ =~= committed_record_model(
                    recipe@,
                    settings@,
                    resolved_prefix(sm, world@, n),
                    old(ctx)@.build_root,
                ));
                assert forall|i: int|
                    0 <= i < sm.len() implies resolve_step_model(
                    #[trigger] sm[i],
                    world@,
                ) is Some by {
                    assert(step_ok(sm[i], old(ctx)@.distro, world@));
                }
            }
            match store.commit(&handle, new_record) {
                Ok(()) => {
                    store.release(handle);
                    let built = ArtifactRef { root: ctx.build_root.clone() };
                    Ok(BuildOutcome::Built { artifact: built })
                },
                Err(e) => {
                    store.release(handle);
                    Err(e)
                },
            }
        },
        Err(e) => {
            proof {
                if exec.executed() == old(exec).executed() {
                    assert(exec.executed() =~= old(exec).executed() + index_run(0));
                }
            }
            store.release(handle);
            Err(e)
        },
    }
}

} // verus!
