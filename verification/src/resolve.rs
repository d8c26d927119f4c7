//! Step resolution and distro dispatch.
//!
//! Resolution turns a declared step into its fully pinned effective action,
//! deterministically from the step and a snapshot of the external facts it
//! depends on (the `World`: which package versions and VCS heads resolution
//! would find right now). Dispatch decides whether a step is valid for the
//! build context's detected distro family; a mismatch is a fatal invariant
//! violation, never silently skipped.

use vstd::prelude::*;

use crate::error::BuildError;
use crate::error::ErrorClass;
use crate::kv::lookup;
use crate::kv::pairs_model;
use crate::kv::spec_lookup;
use crate::kv::strings_model;
use crate::step::DistroFamily;
use crate::step::PinnedPackage;
use crate::step::ResolvedStep;
use crate::step::ResolvedStepModel;
use crate::step::StepSpec;
use crate::step::StepSpecModel;
use crate::step::pinned_model;
use crate::step::resolved_steps_model;
use crate::step::spec_steps_model;

verus! {

/// Snapshot of the external facts resolution reads: the version each package
/// name currently resolves to, and the head revision of each VCS URL.
/// Resolution is a pure function of a step and this snapshot.
pub struct World {
    pub package_versions: Vec<(String, String)>,
    pub vcs_revisions: Vec<(String, String)>,
}

/// Mathematical model of a world snapshot.
#[verifier::ext_equal]
pub struct WorldModel {
    pub package_versions: Seq<(Seq<char>, Seq<char>)>,
    pub vcs_revisions: Seq<(Seq<char>, Seq<char>)>,
}

impl View for World {
    type V = WorldModel;

    open spec fn view(&self) -> WorldModel {
        WorldModel {
            package_versions: pairs_model(self.package_versions@),
            vcs_revisions: pairs_model(self.vcs_revisions@),
        }
    }
}

/// The distro family a declared step demands, if it is distro-specific.
pub open spec fn required_family_model(s: StepSpecModel) -> Option<DistroFamily> {
    match s {
        StepSpecModel::PackageInstall { family, .. } => Some(family),
        _ => None,
    }
}

/// Whether a step is valid for the context's detected distro family: a
/// distro-specific step demands that the family is resolved and matches.
pub open spec fn dispatch_ok(s: StepSpecModel, distro: Option<DistroFamily>) -> bool {
    match required_family_model(s) {
        Some(f) => distro == Some(f),
        None => true,
    }
}

/// Distro dispatch check: accepts the step exactly when `dispatch_ok` holds
/// of its model, and otherwise reports the fatal invariant violation.
pub fn dispatch_check(s: &StepSpec, distro: Option<DistroFamily>) -> (r: Result<(), BuildError>)
    ensures
        r is Ok <==> dispatch_ok(s@, distro),
        r is Err ==> r->Err_0.class == ErrorClass::Fatal,
{
    match s.required_family() {
        None => Ok(()),
        Some(f) => match distro {
            Some(d) => {
                if d == f {
                    Ok(())
                } else {
                    Err(
                        BuildError {
                            class: ErrorClass::Fatal,
                            step_index: None,
                            message: String::from_str(
                                "step declared for another distro family",
                            ),
                        },
                    )
                }
            },
            None => Err(
                BuildError {
                    class: ErrorClass::Fatal,
                    step_index: None,
                    message: String::from_str("distro family not resolved before package step"),
                },
            ),
        },
    }
}

/// The pinned packages a package list resolves to under a world snapshot:
/// every name must have a version, else resolution fails.
pub open spec fn resolve_packages_model(packages: Seq<Seq<char>>, w: WorldModel) -> Option<
    Seq<(Seq<char>, Seq<char>)>,
> {
    if forall|i: int| 0 <= i < packages.len() ==> spec_lookup(w.package_versions, packages[i])
        is Some {
        Some(
            Seq::new(
                packages.len(),
                |i: int| (packages[i], spec_lookup(w.package_versions, packages[i])->0),
            ),
        )
    } else {
        None
    }
}

/// What a declared step resolves to under a world snapshot: its fully pinned
/// effective identity, or nothing when a declared input does not resolve.
/// A pure function of the two models.
pub open spec fn resolve_step_model(s: StepSpecModel, w: WorldModel) -> Option<ResolvedStepModel> {
    match s {
        StepSpecModel::PackageInstall { family, packages } => {
            match resolve_packages_model(packages, w) {
                Some(pinned) => Some(
                    ResolvedStepModel::PackageInstall { family, packages: pinned },
                ),
                None => None,
            }
        },
        StepSpecModel::VcsCheckout { url, revision } => {
            match revision {
                Some(r) => Some(ResolvedStepModel::VcsCheckout { url, revision: r }),
                None => match spec_lookup(w.vcs_revisions, url) {
                    Some(head) => Some(ResolvedStepModel::VcsCheckout { url, revision: head }),
                    None => None,
                },
            }
        },
        StepSpecModel::Download { url } => Some(ResolvedStepModel::Download { url }),
        StepSpecModel::ArchiveExtract { source_url, into } => Some(
            ResolvedStepModel::ArchiveExtract { source_url, into },
        ),
        StepSpecModel::TextTemplate { path, contents } => Some(
            ResolvedStepModel::TextTemplate { path, contents },
        ),
        StepSpecModel::DirectoryOp { path } => Some(ResolvedStepModel::DirectoryOp { path }),
        StepSpecModel::SubContainerInclude { name } => Some(
            ResolvedStepModel::SubContainerInclude { name },
        ),
        StepSpecModel::PackagingFinalize => Some(ResolvedStepModel::PackagingFinalize),
    }
}

/// Resolves a declared step against a world snapshot. Succeeds with the step
/// whose model `resolve_step_model` gives exactly when that model resolution
/// succeeds; a declared input that does not resolve is a configuration
/// error.
pub fn resolve_step(s: &StepSpec, world: &World) -> (r: Result<ResolvedStep, BuildError>)
    ensures
        match r {
            Ok(rs) => resolve_step_model(s@, world@) == Some(rs@),
            Err(e) => resolve_step_model(s@, world@) is None && e.class == ErrorClass::Config,
        },
{
    match s {
        StepSpec::PackageInstall { family, packages } => {
            let mut pinned: Vec<PinnedPackage> = Vec::new();
            let n = packages.len();
            let ghost pm = strings_model(packages@);
            let mut i: usize = 0;
            while i < n
                invariant
                    n == packages.len(),
                    0 <= i <= n,
                    pm == strings_model(packages@),
                    s@ == (StepSpecModel::PackageInstall { family: *family, packages: pm }),
                    pinned@.len() == i,
                    forall|j: int|
                        0 <= j < i ==> #[trigger] spec_lookup(world@.package_versions, pm[j])
                            is Some,
                    forall|j: int|
                        0 <= j < i ==> #[trigger] pinned@[j]@ == (
                            pm[j],
                            spec_lookup(world@.package_versions, pm[j])->0,
                        ),
                decreases n - i,
            {
                proof {
                    assert(pm[i as int] == packages@[i as int]@);
                }
                match lookup(&world.package_versions, &packages[i]) {
                    Some(version) => {
                        let p = PinnedPackage { name: packages[i].clone(), version };
                        pinned.push(p);
                    },
                    None => {
                        proof {
                            assert(spec_lookup(world@.package_versions, pm[i as int]) is None);
                            assert(resolve_packages_model(pm, world@) is None);
                        }
                        return Err(
                            BuildError {
                                class: ErrorClass::Config,
                                step_index: None,
                                message: String::from_str("package does not resolve to a version"),
                            },
                        );
                    },
                }
                i += 1;
            }
            proof {
                assert(resolve_packages_model(pm, world@) is Some);
                assert(pinned_model(pinned@) =~= resolve_packages_model(pm, world@)->0);
            }
            let out = ResolvedStep::PackageInstall { family: *family, packages: pinned };
            proof {
                assert(out@ =~= resolve_step_model(s@, world@)->0);
            }
            Ok(out)
        },
        StepSpec::VcsCheckout { url, revision } => {
            match revision {
                Some(rev) => Ok(
                    ResolvedStep::VcsCheckout { url: url.clone(), revision: rev.clone() },
                ),
                None => match lookup(&world.vcs_revisions, url) {
                    Some(head) => Ok(
                        ResolvedStep::VcsCheckout { url: url.clone(), revision: head },
                    ),
                    None => Err(
                        BuildError {
                            class: ErrorClass::Config,
                            step_index: None,
                            message: String::from_str("vcs head does not resolve"),
                        },
                    ),
                },
            }
        },
        StepSpec::Download { url } => Ok(ResolvedStep::Download { url: url.clone() }),
        StepSpec::ArchiveExtract { source_url, into } => Ok(
            ResolvedStep::ArchiveExtract { source_url: source_url.clone(), into: into.clone() },
        ),
        StepSpec::TextTemplate { path, contents } => Ok(
            ResolvedStep::TextTemplate { path: path.clone(), contents: contents.clone() },
        ),
        StepSpec::DirectoryOp { path } => Ok(ResolvedStep::DirectoryOp { path: path.clone() }),
        StepSpec::SubContainerInclude { name } => Ok(
            ResolvedStep::SubContainerInclude { name: name.clone() },
        ),
        StepSpec::PackagingFinalize => Ok(ResolvedStep::PackagingFinalize),
    }
}

/// Resolves every declared step against a world snapshot, executing nothing:
/// the pre-execution probe the guard's cache check uses. Succeeds with the
/// full list of effective identities exactly when every step resolves, and
/// otherwise reports the first non-resolving step's configuration error.
pub fn resolve_all(steps: &Vec<StepSpec>, world: &World) -> (r: Result<
    Vec<ResolvedStep>,
    BuildError,
>)
    ensures
        match r {
            Ok(rs) => rs@.len() == steps@.len() && forall|j: int|
                0 <= j < steps@.len() ==> resolve_step_model(
                    spec_steps_model(steps@)[j],
                    world@,
                ) == Some(#[trigger] resolved_steps_model(rs@)[j]),
            Err(e) => e.class == ErrorClass::Config && exists|j: int|
                0 <= j < steps@.len() && resolve_step_model(
                    #[trigger] spec_steps_model(steps@)[j],
                    world@,
                ) is None,
        },
{
    let ghost sm = spec_steps_model(steps@);
    let mut out: Vec<ResolvedStep> = Vec::new();
    let n = steps.len();
    let mut i: usize = 0;
    #[verifier::loop_isolation(false)]
    while i < n
        invariant
            0 <= i <= n,
            out@.len() == i,
            forall|j: int|
                0 <= j < i ==> resolve_step_model(sm[j], world@) == Some(
                    #[trigger] resolved_steps_model(out@)[j],
                ),
        decreases n - i,
    {
        proof {
            assert(sm[i as int] == steps@[i as int]@);
        }
        match resolve_step(&steps[i], world) {
            Ok(rs) => {
                let ghost out_pre = out@;
                out.push(rs);
                proof {
                    assert(resolved_steps_model(out@) =~= resolved_steps_model(out_pre).push(
                        rs@,
                    ));
                }
            },
            Err(e) => {
                proof {
                    assert(resolve_step_model(sm[i as int], world@) is None);
                }
                return Err(e);
            },
        }
        i += 1;
    }
    Ok(out)
}

} // verus!
