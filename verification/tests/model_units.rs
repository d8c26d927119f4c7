use buildcore::context::Context;
use buildcore::error::exit_code;
use buildcore::error::BuildError;
use buildcore::error::ErrorClass;
use buildcore::fingerprint::declared_fingerprint;
use buildcore::fingerprint::eq_fingerprint;
use buildcore::fingerprint::eq_resolved_fingerprint;
use buildcore::fingerprint::ResolvedFingerprint;
use buildcore::kv::lookup;
use buildcore::recipe::Recipe;
use buildcore::recipe::Settings;
use buildcore::resolve::dispatch_check;
use buildcore::resolve::resolve_step;
use buildcore::resolve::World;
use buildcore::step::DistroFamily;
use buildcore::step::PinnedPackage;
use buildcore::step::ResolvedStep;
use buildcore::step::StepKind;
use buildcore::step::StepSpec;

fn sample_resolved_fingerprint(curl_version: &str) -> ResolvedFingerprint {
    ResolvedFingerprint {
        container: "web".to_string(),
        version: "v1".to_string(),
        recipe_settings: vec![("base".to_string(), "minimal".to_string())],
        build_settings: vec![("jobs".to_string(), "4".to_string())],
        steps: vec![
            ResolvedStep::Download { url: "https://example.org/a.tar.gz".to_string() },
            ResolvedStep::PackageInstall {
                family: DistroFamily::Ubuntu,
                packages: vec![PinnedPackage {
                    name: "curl".to_string(),
                    version: curl_version.to_string(),
                }],
            },
        ],
    }
}

#[test]
fn equal_resolved_content_gives_equal_fingerprints() {
    // two independently constructed values with the same content
    let a = sample_resolved_fingerprint("8.1.2");
    let b = sample_resolved_fingerprint("8.1.2");
    assert!(eq_resolved_fingerprint(&a, &b));
}

#[test]
fn one_changed_resolved_parameter_changes_the_fingerprint() {
    let a = sample_resolved_fingerprint("8.1.2");
    let b = sample_resolved_fingerprint("8.1.3");
    assert!(!eq_resolved_fingerprint(&a, &b));
}

#[test]
fn declared_fingerprint_is_representation_independent() {
    let make = || Recipe {
        container: "web".to_string(),
        version: "v1".to_string(),
        settings: vec![("base".to_string(), "minimal".to_string())],
        steps: vec![StepSpec::Download { url: "https://example.org/a".to_string() }],
    };
    let settings = Settings { entries: vec![("jobs".to_string(), "4".to_string())] };
    let f1 = declared_fingerprint(&make(), &settings);
    let f2 = declared_fingerprint(&make(), &settings);
    assert!(eq_fingerprint(&f1, &f2));

    let other_settings = Settings { entries: vec![("jobs".to_string(), "8".to_string())] };
    let f3 = declared_fingerprint(&make(), &other_settings);
    assert!(!eq_fingerprint(&f1, &f3));
}

#[test]
fn resolve_pins_package_versions_from_the_world() {
    let world = World {
        package_versions: vec![("curl".to_string(), "8.1.2".to_string())],
        vcs_revisions: vec![],
    };
    let step = StepSpec::PackageInstall {
        family: DistroFamily::Ubuntu,
        packages: vec!["curl".to_string()],
    };
    match resolve_step(&step, &world) {
        Ok(ResolvedStep::PackageInstall { packages, .. }) => {
            assert_eq!(packages.len(), 1);
            assert_eq!(packages[0].name, "curl");
            assert_eq!(packages[0].version, "8.1.2");
        }
        _ => panic!("a resolvable package step must resolve to a package install"),
    }
}

#[test]
fn resolve_pins_a_floating_vcs_revision_to_the_current_head() {
    let world = World {
        package_versions: vec![],
        vcs_revisions: vec![("https://example.org/repo.git".to_string(), "abc123".to_string())],
    };
    let floating = StepSpec::VcsCheckout {
        url: "https://example.org/repo.git".to_string(),
        revision: None,
    };
    match resolve_step(&floating, &world) {
        Ok(ResolvedStep::VcsCheckout { revision, .. }) => assert_eq!(revision, "abc123"),
        _ => panic!("a floating checkout must pin to the head the world gives"),
    }

    let pinned = StepSpec::VcsCheckout {
        url: "https://example.org/repo.git".to_string(),
        revision: Some("fff999".to_string()),
    };
    match resolve_step(&pinned, &world) {
        Ok(ResolvedStep::VcsCheckout { revision, .. }) => assert_eq!(revision, "fff999"),
        _ => panic!("a pinned checkout keeps its declared revision"),
    }
}

#[test]
fn resolve_rejects_an_unknown_vcs_url() {
    let world = World { package_versions: vec![], vcs_revisions: vec![] };
    let step = StepSpec::VcsCheckout {
        url: "https://example.org/missing.git".to_string(),
        revision: None,
    };
    let err = resolve_step(&step, &world).err().expect("an unknown head must not resolve");
    assert_eq!(err.class, ErrorClass::Config);
}

#[test]
fn dispatch_accepts_matching_family_and_rejects_others() {
    let step = StepSpec::PackageInstall {
        family: DistroFamily::Alpine,
        packages: vec!["curl".to_string()],
    };
    assert!(dispatch_check(&step, Some(DistroFamily::Alpine)).is_ok());

    let err = dispatch_check(&step, Some(DistroFamily::Ubuntu)).err().unwrap();
    assert_eq!(err.class, ErrorClass::Fatal);

    let err = dispatch_check(&step, None).err().unwrap();
    assert_eq!(err.class, ErrorClass::Fatal);

    // a distro-agnostic step runs on any family, resolved or not
    let agnostic = StepSpec::Download { url: "https://example.org/a".to_string() };
    assert!(dispatch_check(&agnostic, None).is_ok());
    assert!(dispatch_check(&agnostic, Some(DistroFamily::Ubuntu)).is_ok());
}

#[test]
fn distro_family_is_set_at_most_once() {
    let recipe = Recipe {
        container: "web".to_string(),
        version: "v1".to_string(),
        settings: vec![],
        steps: vec![],
    };
    let settings = Settings { entries: vec![] };
    let mut ctx = Context::new(&recipe, &settings, "/work/.build/web".to_string());
    assert!(ctx.set_distro(DistroFamily::Ubuntu).is_ok());
    let err = ctx.set_distro(DistroFamily::Alpine).err().unwrap();
    assert_eq!(err.class, ErrorClass::Fatal);
    assert_eq!(ctx.distro, Some(DistroFamily::Ubuntu));
}

#[test]
fn lookup_returns_the_first_binding() {
    let list = vec![
        ("a".to_string(), "1".to_string()),
        ("b".to_string(), "2".to_string()),
        ("a".to_string(), "3".to_string()),
    ];
    assert_eq!(lookup(&list, &"a".to_string()), Some("1".to_string()));
    assert_eq!(lookup(&list, &"b".to_string()), Some("2".to_string()));
    assert_eq!(lookup(&list, &"c".to_string()), None);
    assert_eq!(lookup(&Vec::new(), &"a".to_string()), None);
}

#[test]
fn a_recipe_needs_network_exactly_when_some_step_does() {
    let offline = Recipe {
        container: "docs".to_string(),
        version: "v1".to_string(),
        settings: vec![],
        steps: vec![
            StepSpec::TextTemplate { path: "/etc/motd".to_string(), contents: "hi".to_string() },
            StepSpec::PackagingFinalize,
        ],
    };
    assert!(!offline.needs_network());

    let online = Recipe {
        container: "web".to_string(),
        version: "v1".to_string(),
        settings: vec![],
        steps: vec![
            StepSpec::TextTemplate { path: "/etc/motd".to_string(), contents: "hi".to_string() },
            StepSpec::Download { url: "https://example.org/a".to_string() },
        ],
    };
    assert!(online.needs_network());
}

#[test]
fn step_kinds_are_reported_by_tag() {
    let step = StepSpec::PackagingFinalize;
    assert_eq!(step.kind(), StepKind::PackagingFinalize);
    let step = StepSpec::SubContainerInclude { name: "base".to_string() };
    assert_eq!(step.kind(), StepKind::SubContainerInclude);
    assert!(!step.requires_network());
    let step = StepSpec::Download { url: "https://example.org/a".to_string() };
    assert!(step.requires_network());
}

#[test]
fn exit_codes_map_success_and_failure() {
    assert_eq!(exit_code(&Ok(())), 0);
    let err = BuildError {
        class: ErrorClass::Config,
        step_index: Some(2),
        message: "bad input".to_string(),
    };
    assert!(!err.is_retryable());
    assert_eq!(exit_code::<()>(&Err(err)), 1);
}
