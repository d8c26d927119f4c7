use buildcore::context::Context;
use buildcore::error::ErrorClass;
use buildcore::executor::ScriptedExecutor;
use buildcore::executor::StepFailure;
use buildcore::executor::StepOutcome;
use buildcore::executor::StepReport;
use buildcore::fingerprint::eq_fingerprint;
use buildcore::fingerprint::eq_resolved_fingerprint;
use buildcore::guard::build;
use buildcore::guard::BuildOutcome;
use buildcore::recipe::Recipe;
use buildcore::recipe::Settings;
use buildcore::resolve::World;
use buildcore::step::DistroFamily;
use buildcore::step::StepSpec;
use buildcore::store::LockStore;
use buildcore::store::MemoryStore;
use buildcore::store::TargetKey;

fn ubuntu_world() -> World {
    World {
        package_versions: vec![
            ("curl".to_string(), "8.1.2".to_string()),
            ("git".to_string(), "2.40.1".to_string()),
        ],
        vcs_revisions: vec![("https://example.org/repo.git".to_string(), "abc123".to_string())],
    }
}

fn demo_recipe(packages: Vec<&str>) -> Recipe {
    Recipe {
        container: "web".to_string(),
        version: "v1".to_string(),
        settings: vec![("base".to_string(), "minimal".to_string())],
        steps: vec![
            StepSpec::Download { url: "https://example.org/a.tar.gz".to_string() },
            StepSpec::ArchiveExtract {
                source_url: "https://example.org/a.tar.gz".to_string(),
                into: "/usr/local".to_string(),
            },
            StepSpec::PackageInstall {
                family: DistroFamily::Ubuntu,
                packages: packages.into_iter().map(|p| p.to_string()).collect(),
            },
        ],
    }
}

fn user_settings() -> Settings {
    Settings { entries: vec![("jobs".to_string(), "4".to_string())] }
}

fn success_script(n: usize) -> Vec<StepReport> {
    (0..n).map(|i| StepReport { outcome: StepOutcome::Success, duration_ms: 10 + i as u64 }).collect()
}

fn fresh_context(recipe: &Recipe, settings: &Settings) -> Context {
    let mut ctx = Context::new(recipe, settings, "/work/.build/web".to_string());
    ctx.set_distro(DistroFamily::Ubuntu).unwrap();
    ctx
}

#[test]
fn first_build_executes_all_steps_and_commits() {
    let recipe = demo_recipe(vec!["curl"]);
    let settings = user_settings();
    let world = ubuntu_world();
    let mut store = MemoryStore::new();
    let mut exec = ScriptedExecutor::new(success_script(3), true);
    let mut ctx = fresh_context(&recipe, &settings);

    let outcome = build(&mut store, &mut exec, &mut ctx, &recipe, &settings, &world);
    match outcome {
        Ok(BuildOutcome::Built { artifact }) => {
            assert_eq!(artifact.root, "/work/.build/web");
        }
        other => panic!("expected a fresh build, got {:?}", describe(&other)),
    }
    assert_eq!(exec.calls, vec![0, 1, 2]);
    // the network hook ran once: the recipe has network-requiring steps
    assert_eq!(exec.setups.len(), 1);
    // one timing record per executed step, in order, with scripted durations
    assert_eq!(ctx.timing_log.len(), 3);
    assert_eq!(ctx.timing_log[0].index, 0);
    assert_eq!(ctx.timing_log[1].index, 1);
    assert_eq!(ctx.timing_log[2].index, 2);
    assert_eq!(ctx.timing_log[0].duration_ms, 10);
    assert_eq!(ctx.timing_log[2].duration_ms, 12);

    let key = TargetKey { container: "web".to_string(), version: "v1".to_string() };
    let record = store.read_committed(&key).expect("a record must be committed");
    assert_eq!(record.artifact.root, "/work/.build/web");
    // the resolved fingerprint pins the package version the world gave
    match &record.resolved.steps[2] {
        buildcore::step::ResolvedStep::PackageInstall { packages, .. } => {
            assert_eq!(packages.len(), 1);
            assert_eq!(packages[0].name, "curl");
            assert_eq!(packages[0].version, "8.1.2");
        }
        _ => panic!("third resolved step must be a package install"),
    }
}

#[test]
fn second_identical_build_is_a_cache_hit_with_zero_executions() {
    let recipe = demo_recipe(vec!["curl"]);
    let settings = user_settings();
    let world = ubuntu_world();
    let mut store = MemoryStore::new();

    let mut exec1 = ScriptedExecutor::new(success_script(3), true);
    let mut ctx1 = fresh_context(&recipe, &settings);
    assert!(build(&mut store, &mut exec1, &mut ctx1, &recipe, &settings, &world).is_ok());

    let mut exec2 = ScriptedExecutor::new(success_script(3), true);
    let mut ctx2 = fresh_context(&recipe, &settings);
    let second = build(&mut store, &mut exec2, &mut ctx2, &recipe, &settings, &world);
    match second {
        Ok(BuildOutcome::CacheHit { artifact }) => {
            assert_eq!(artifact.root, "/work/.build/web");
        }
        other => panic!("expected a cache hit, got {:?}", describe(&other)),
    }
    // zero step executions and no network setup on the cached path
    assert_eq!(exec2.calls.len(), 0);
    assert_eq!(exec2.setups.len(), 0);
    assert_eq!(ctx2.timing_log.len(), 0);
}

#[test]
fn changed_recipe_changes_fingerprint_and_rebuilds() {
    let settings = user_settings();
    let world = ubuntu_world();
    let mut store = MemoryStore::new();
    let key = TargetKey { container: "web".to_string(), version: "v1".to_string() };

    let recipe1 = demo_recipe(vec!["curl"]);
    let mut exec1 = ScriptedExecutor::new(success_script(3), true);
    let mut ctx1 = fresh_context(&recipe1, &settings);
    assert!(build(&mut store, &mut exec1, &mut ctx1, &recipe1, &settings, &world).is_ok());
    let first_record = store.read_committed(&key).unwrap();

    // third build of the scenario: one more package in the install step
    let recipe2 = demo_recipe(vec!["curl", "git"]);
    let mut exec2 = ScriptedExecutor::new(success_script(3), true);
    let mut ctx2 = fresh_context(&recipe2, &settings);
    let third = build(&mut store, &mut exec2, &mut ctx2, &recipe2, &settings, &world);
    assert!(matches!(third, Ok(BuildOutcome::Built { .. })));
    // the full pipeline re-executed
    assert_eq!(exec2.calls, vec![0, 1, 2]);

    let second_record = store.read_committed(&key).unwrap();
    // both fingerprints changed: the old record was replaced whole
    assert!(!eq_fingerprint(&first_record.declared, &second_record.declared));
    assert!(!eq_resolved_fingerprint(&first_record.resolved, &second_record.resolved));
}

#[test]
fn changed_resolved_world_state_invalidates_the_cache() {
    // identical recipe and settings, but the world now resolves the one
    // package to a different version: exactly one resolved step parameter
    // differs from the committed build, so the cache must not hit
    let recipe = demo_recipe(vec!["curl"]);
    let settings = user_settings();
    let mut store = MemoryStore::new();
    let key = TargetKey { container: "web".to_string(), version: "v1".to_string() };

    let world1 = ubuntu_world();
    let mut exec1 = ScriptedExecutor::new(success_script(3), true);
    let mut ctx1 = fresh_context(&recipe, &settings);
    assert!(build(&mut store, &mut exec1, &mut ctx1, &recipe, &settings, &world1).is_ok());
    let first_record = store.read_committed(&key).unwrap();

    let world2 = World {
        package_versions: vec![("curl".to_string(), "9.0.0".to_string())],
        vcs_revisions: vec![],
    };
    let mut exec2 = ScriptedExecutor::new(success_script(3), true);
    let mut ctx2 = fresh_context(&recipe, &settings);
    let second = build(&mut store, &mut exec2, &mut ctx2, &recipe, &settings, &world2);
    assert!(matches!(second, Ok(BuildOutcome::Built { .. })));
    // the full pipeline re-executed under the new world
    assert_eq!(exec2.calls, vec![0, 1, 2]);

    let second_record = store.read_committed(&key).unwrap();
    // declared inputs unchanged, resolved content changed
    assert!(eq_fingerprint(&first_record.declared, &second_record.declared));
    assert!(!eq_resolved_fingerprint(&first_record.resolved, &second_record.resolved));
    match &second_record.resolved.steps[2] {
        buildcore::step::ResolvedStep::PackageInstall { packages, .. } => {
            assert_eq!(packages[0].version, "9.0.0");
        }
        _ => panic!("third resolved step must be a package install"),
    }
}

#[test]
fn failing_step_stops_the_pipeline_and_commits_nothing() {
    let recipe = demo_recipe(vec!["curl"]);
    let settings = user_settings();
    let world = ubuntu_world();
    let mut store = MemoryStore::new();
    let script = vec![
        StepReport { outcome: StepOutcome::Success, duration_ms: 5 },
        StepReport {
            outcome: StepOutcome::Failure {
                class: StepFailure::Transient,
                message: "connection reset".to_string(),
            },
            duration_ms: 7,
        },
        StepReport { outcome: StepOutcome::Success, duration_ms: 9 },
    ];
    let mut exec = ScriptedExecutor::new(script, true);
    let mut ctx = fresh_context(&recipe, &settings);

    let outcome = build(&mut store, &mut exec, &mut ctx, &recipe, &settings, &world);
    let err = outcome.err().expect("the build must fail");
    assert_eq!(err.class, ErrorClass::Transient);
    assert_eq!(err.step_index, Some(1));
    assert_eq!(err.message, "connection reset");
    assert!(err.is_retryable());
    // steps after the failing one never executed
    assert_eq!(exec.calls, vec![0, 1]);
    // nothing was committed
    let key = TargetKey { container: "web".to_string(), version: "v1".to_string() };
    assert!(store.read_committed(&key).is_none());
}

#[test]
fn failed_rebuild_leaves_previous_artifact_intact() {
    let settings = user_settings();
    let world = ubuntu_world();
    let mut store = MemoryStore::new();
    let key = TargetKey { container: "web".to_string(), version: "v1".to_string() };

    let recipe1 = demo_recipe(vec!["curl"]);
    let mut exec1 = ScriptedExecutor::new(success_script(3), true);
    let mut ctx1 = fresh_context(&recipe1, &settings);
    assert!(build(&mut store, &mut exec1, &mut ctx1, &recipe1, &settings, &world).is_ok());
    let before = store.read_committed(&key).unwrap();

    let recipe2 = demo_recipe(vec!["curl", "git"]);
    let script = vec![StepReport {
        outcome: StepOutcome::Failure {
            class: StepFailure::Fatal,
            message: "device gone".to_string(),
        },
        duration_ms: 1,
    }];
    let mut exec2 = ScriptedExecutor::new(script, true);
    let mut ctx2 = fresh_context(&recipe2, &settings);
    assert!(build(&mut store, &mut exec2, &mut ctx2, &recipe2, &settings, &world).is_err());

    // the old record is still there, whole
    let after = store.read_committed(&key).unwrap();
    assert!(eq_fingerprint(&before.declared, &after.declared));
    assert!(eq_resolved_fingerprint(&before.resolved, &after.resolved));
    assert_eq!(before.artifact.root, after.artifact.root);
}

#[test]
fn concurrent_build_of_same_target_sees_lock_contention() {
    let recipe = demo_recipe(vec!["curl"]);
    let settings = user_settings();
    let world = ubuntu_world();
    let mut store = MemoryStore::new();

    // a first builder holds the lock of this target
    let key = TargetKey { container: "web".to_string(), version: "v1".to_string() };
    let _held = store.acquire(&key).expect("first acquire must be granted");

    let mut exec = ScriptedExecutor::new(success_script(3), true);
    let mut ctx = fresh_context(&recipe, &settings);
    let outcome = build(&mut store, &mut exec, &mut ctx, &recipe, &settings, &world);
    let err = outcome.err().expect("the second build must not proceed");
    assert_eq!(err.class, ErrorClass::LockContention);
    // it executed nothing and committed nothing
    assert_eq!(exec.calls.len(), 0);
    assert!(store.read_committed(&key).is_none());

    // a different target is unaffected by the held lock
    let other = TargetKey { container: "db".to_string(), version: "v1".to_string() };
    assert!(store.acquire(&other).is_some());
}

#[test]
fn network_hook_failure_fails_the_build_before_any_step() {
    let recipe = demo_recipe(vec!["curl"]);
    let settings = user_settings();
    let world = ubuntu_world();
    let mut store = MemoryStore::new();
    let mut exec = ScriptedExecutor::new(success_script(3), false);
    let mut ctx = fresh_context(&recipe, &settings);

    let outcome = build(&mut store, &mut exec, &mut ctx, &recipe, &settings, &world);
    let err = outcome.err().expect("the build must fail");
    assert_eq!(err.class, ErrorClass::Transient);
    assert_eq!(err.step_index, None);
    assert_eq!(exec.setups.len(), 1);
    assert_eq!(exec.calls.len(), 0);
}

#[test]
fn recipe_without_network_steps_skips_the_hook() {
    let recipe = Recipe {
        container: "docs".to_string(),
        version: "v2".to_string(),
        settings: vec![],
        steps: vec![
            StepSpec::TextTemplate {
                path: "/etc/motd".to_string(),
                contents: "hello".to_string(),
            },
            StepSpec::DirectoryOp { path: "/var/cache".to_string() },
            StepSpec::PackagingFinalize,
        ],
    };
    let settings = Settings { entries: vec![] };
    let world = World { package_versions: vec![], vcs_revisions: vec![] };
    let mut store = MemoryStore::new();
    // network would fail, but no step needs it
    let mut exec = ScriptedExecutor::new(success_script(3), false);
    let mut ctx = Context::new(&recipe, &settings, "/work/.build/docs".to_string());

    let outcome = build(&mut store, &mut exec, &mut ctx, &recipe, &settings, &world);
    assert!(matches!(outcome, Ok(BuildOutcome::Built { .. })));
    assert_eq!(exec.setups.len(), 0);
    assert_eq!(exec.calls, vec![0, 1, 2]);
}

#[test]
fn distro_mismatch_is_fatal_and_fail_fast() {
    let recipe = Recipe {
        container: "web".to_string(),
        version: "v1".to_string(),
        settings: vec![],
        steps: vec![
            StepSpec::Download { url: "https://example.org/a".to_string() },
            StepSpec::PackageInstall {
                family: DistroFamily::Alpine,
                packages: vec!["curl".to_string()],
            },
        ],
    };
    let settings = Settings { entries: vec![] };
    let world = ubuntu_world();
    let mut store = MemoryStore::new();
    let mut exec = ScriptedExecutor::new(success_script(2), true);
    let mut ctx = Context::new(&recipe, &settings, "/work/.build/web".to_string());
    ctx.set_distro(DistroFamily::Ubuntu).unwrap();

    let outcome = build(&mut store, &mut exec, &mut ctx, &recipe, &settings, &world);
    let err = outcome.err().expect("a distro mismatch must abort the build");
    assert_eq!(err.class, ErrorClass::Fatal);
    assert_eq!(err.step_index, Some(1));
    assert!(!err.is_retryable());
    // only the step before the mismatch executed
    assert_eq!(exec.calls, vec![0]);
}

#[test]
fn unresolved_package_is_a_config_error() {
    let recipe = demo_recipe(vec!["curl", "no-such-package"]);
    let settings = user_settings();
    let world = ubuntu_world();
    let mut store = MemoryStore::new();
    let mut exec = ScriptedExecutor::new(success_script(3), true);
    let mut ctx = fresh_context(&recipe, &settings);

    let outcome = build(&mut store, &mut exec, &mut ctx, &recipe, &settings, &world);
    let err = outcome.err().expect("an unresolved package must fail the build");
    assert_eq!(err.class, ErrorClass::Config);
    assert_eq!(err.step_index, Some(2));
    // the first two steps executed; the failing one never did
    assert_eq!(exec.calls, vec![0, 1]);
}

fn describe(outcome: &Result<BuildOutcome, buildcore::error::BuildError>) -> String {
    match outcome {
        Ok(BuildOutcome::Built { artifact }) => format!("Built at {}", artifact.root),
        Ok(BuildOutcome::CacheHit { artifact }) => format!("CacheHit at {}", artifact.root),
        Err(e) => format!("error {:?} at step {:?}: {}", e.class, e.step_index, e.message),
    }
}
