//! Build steps: the declared form found in a recipe and the resolved form
//! actually executed.
//!
//! A declared step may leave parameters open (an unpinned package set, a
//! floating VCS revision); resolution turns it into a fully pinned
//! `ResolvedStep` whose identity feeds the build fingerprint. Both forms are
//! immutable value objects; the mathematical model of each is a mirror
//! datatype over sequences of characters.

use vstd::prelude::*;

use crate::kv::eq_strings;
use crate::kv::strings_model;
use crate::kv::copy_strings;

verus! {

/// Base distribution family a build root is derived from. Distro-specific
/// steps are valid only when the context's detected family matches.
#[derive(Clone, Copy, PartialEq, Eq, Structural, Debug)]
pub enum DistroFamily {
    Ubuntu,
    Alpine,
}

/// Closed set of step kinds. Dispatch is by exhaustive matching on this tag,
/// so adding a kind is a compile-time-checked change.
#[derive(Clone, Copy, PartialEq, Eq, Structural, Debug)]
pub enum StepKind {
    PackageInstall,
    VcsCheckout,
    Download,
    ArchiveExtract,
    TextTemplate,
    DirectoryOp,
    SubContainerInclude,
    PackagingFinalize,
}

/// A declared build step, as a validated recipe supplies it. Parameters may
/// still be open: package versions unpinned, a VCS revision floating.
pub enum StepSpec {
    PackageInstall { family: DistroFamily, packages: Vec<String> },
    VcsCheckout { url: String, revision: Option<String> },
    Download { url: String },
    ArchiveExtract { source_url: String, into: String },
    TextTemplate { path: String, contents: String },
    DirectoryOp { path: String },
    SubContainerInclude { name: String },
    PackagingFinalize,
}

/// A package name pinned to one concrete version by resolution.
pub struct PinnedPackage {
    pub name: String,
    pub version: String,
}

/// A fully resolved build step: every open parameter of the declared step has
/// been pinned to a concrete value. Its model is the step's effective
/// identity, and is what feeds the fingerprint.
pub enum ResolvedStep {
    PackageInstall { family: DistroFamily, packages: Vec<PinnedPackage> },
    VcsCheckout { url: String, revision: String },
    Download { url: String },
    ArchiveExtract { source_url: String, into: String },
    TextTemplate { path: String, contents: String },
    DirectoryOp { path: String },
    SubContainerInclude { name: String },
    PackagingFinalize,
}

/// Mathematical model of a declared step.
#[verifier::ext_equal]
pub enum StepSpecModel {
    PackageInstall { family: DistroFamily, packages: Seq<Seq<char>> },
    VcsCheckout { url: Seq<char>, revision: Option<Seq<char>> },
    Download { url: Seq<char> },
    ArchiveExtract { source_url: Seq<char>, into: Seq<char> },
    TextTemplate { path: Seq<char>, contents: Seq<char> },
    DirectoryOp { path: Seq<char> },
    SubContainerInclude { name: Seq<char> },
    PackagingFinalize,
}

/// Mathematical model of a resolved step: the step's effective identity.
#[verifier::ext_equal]
pub enum ResolvedStepModel {
    PackageInstall { family: DistroFamily, packages: Seq<(Seq<char>, Seq<char>)> },
    VcsCheckout { url: Seq<char>, revision: Seq<char> },
    Download { url: Seq<char> },
    ArchiveExtract { source_url: Seq<char>, into: Seq<char> },
    TextTemplate { path: Seq<char>, contents: Seq<char> },
    DirectoryOp { path: Seq<char> },
    SubContainerInclude { name: Seq<char> },
    PackagingFinalize,
}

impl View for PinnedPackage {
    type V = (Seq<char>, Seq<char>);

    open spec fn view(&self) -> (Seq<char>, Seq<char>) {
        (self.name@, self.version@)
    }
}

impl View for StepSpec {
    type V = StepSpecModel;

    open spec fn view(&self) -> StepSpecModel {
        match self {
            StepSpec::PackageInstall { family, packages } => StepSpecModel::PackageInstall {
                family: *family,
                packages: strings_model(packages@),
            },
            StepSpec::VcsCheckout { url, revision } => StepSpecModel::VcsCheckout {
                url: url@,
                revision: match revision {
                    Some(r) => Some(r@),
                    None => None,
                },
            },
            StepSpec::Download { url } => StepSpecModel::Download { url: url@ },
            StepSpec::ArchiveExtract { source_url, into } => StepSpecModel::ArchiveExtract {
                source_url: source_url@,
                into: into@,
            },
            StepSpec::TextTemplate { path, contents } => StepSpecModel::TextTemplate {
                path: path@,
                contents: contents@,
            },
            StepSpec::DirectoryOp { path } => StepSpecModel::DirectoryOp { path: path@ },
            StepSpec::SubContainerInclude { name } => StepSpecModel::SubContainerInclude {
                name: name@,
            },
            StepSpec::PackagingFinalize => StepSpecModel::PackagingFinalize,
        }
    }
}

impl View for ResolvedStep {
    type V = ResolvedStepModel;

    open spec fn view(&self) -> ResolvedStepModel {
        match self {
            ResolvedStep::PackageInstall { family, packages } => {
                ResolvedStepModel::PackageInstall {
                    family: *family,
                    packages: pinned_model(packages@),
                }
            },
            ResolvedStep::VcsCheckout { url, revision } => ResolvedStepModel::VcsCheckout {
                url: url@,
                revision: revision@,
            },
            ResolvedStep::Download { url } => ResolvedStepModel::Download { url: url@ },
            ResolvedStep::ArchiveExtract { source_url, into } => {
                ResolvedStepModel::ArchiveExtract { source_url: source_url@, into: into@ }
            },
            ResolvedStep::TextTemplate { path, contents } => ResolvedStepModel::TextTemplate {
                path: path@,
                contents: contents@,
            },
            ResolvedStep::DirectoryOp { path } => ResolvedStepModel::DirectoryOp { path: path@ },
            ResolvedStep::SubContainerInclude { name } => ResolvedStepModel::SubContainerInclude {
                name: name@,
            },
            ResolvedStep::PackagingFinalize => ResolvedStepModel::PackagingFinalize,
        }
    }
}

impl StepSpec {
    /// Kind tag of a declared step.
    pub open spec fn spec_kind(&self) -> StepKind {
        kind_model(self@)
    }

    /// Kind tag of a declared step.
    pub fn kind(&self) -> (k: StepKind)
        ensures
            k == self.spec_kind(),
    {
        match self {
            StepSpec::PackageInstall { .. } => StepKind::PackageInstall,
            StepSpec::VcsCheckout { .. } => StepKind::VcsCheckout,
            StepSpec::Download { .. } => StepKind::Download,
            StepSpec::ArchiveExtract { .. } => StepKind::ArchiveExtract,
            StepSpec::TextTemplate { .. } => StepKind::TextTemplate,
            StepSpec::DirectoryOp { .. } => StepKind::DirectoryOp,
            StepSpec::SubContainerInclude { .. } => StepKind::SubContainerInclude,
            StepSpec::PackagingFinalize => StepKind::PackagingFinalize,
        }
    }

    /// The distro family a step demands of the build context, if it is
    /// distro-specific at all. Only package installation is.
    pub open spec fn spec_required_family(&self) -> Option<DistroFamily> {
        match self {
            StepSpec::PackageInstall { family, .. } => Some(*family),
            _ => None,
        }
    }

    /// The distro family a step demands of the build context, if any.
    pub fn required_family(&self) -> (f: Option<DistroFamily>)
        ensures
            f == self.spec_required_family(),
    {
        match self {
            StepSpec::PackageInstall { family, .. } => Some(*family),
            _ => None,
        }
    }

    /// Whether executing the step needs outbound network access. The network
    /// setup hook runs once, before the first step, exactly when some step in
    /// the pipeline needs it.
    pub open spec fn spec_requires_network(&self) -> bool {
        requires_network_model(self@)
    }

    /// Whether executing the step needs outbound network access.
    pub fn requires_network(&self) -> (r: bool)
        ensures
            r == self.spec_requires_network(),
    {
        match self {
            StepSpec::PackageInstall { .. } => true,
            StepSpec::VcsCheckout { .. } => true,
            StepSpec::Download { .. } => true,
            StepSpec::ArchiveExtract { .. } => true,
            _ => false,
        }
    }
}

impl ResolvedStep {
    /// Kind tag of a resolved step.
    pub open spec fn spec_kind(&self) -> StepKind {
        match self {
            ResolvedStep::PackageInstall { .. } => StepKind::PackageInstall,
            ResolvedStep::VcsCheckout { .. } => StepKind::VcsCheckout,
            ResolvedStep::Download { .. } => StepKind::Download,
            ResolvedStep::ArchiveExtract { .. } => StepKind::ArchiveExtract,
            ResolvedStep::TextTemplate { .. } => StepKind::TextTemplate,
            ResolvedStep::DirectoryOp { .. } => StepKind::DirectoryOp,
            ResolvedStep::SubContainerInclude { .. } => StepKind::SubContainerInclude,
            ResolvedStep::PackagingFinalize => StepKind::PackagingFinalize,
        }
    }

    /// Kind tag of a resolved step.
    pub fn kind(&self) -> (k: StepKind)
        ensures
            k == self.spec_kind(),
    {
        match self {
            ResolvedStep::PackageInstall { .. } => StepKind::PackageInstall,
            ResolvedStep::VcsCheckout { .. } => StepKind::VcsCheckout,
            ResolvedStep::Download { .. } => StepKind::Download,
            ResolvedStep::ArchiveExtract { .. } => StepKind::ArchiveExtract,
            ResolvedStep::TextTemplate { .. } => StepKind::TextTemplate,
            ResolvedStep::DirectoryOp { .. } => StepKind::DirectoryOp,
            ResolvedStep::SubContainerInclude { .. } => StepKind::SubContainerInclude,
            ResolvedStep::PackagingFinalize => StepKind::PackagingFinalize,
        }
    }
}

/// Model of a list of declared steps.
pub open spec fn spec_steps_model(s: Seq<StepSpec>) -> Seq<StepSpecModel> {
    s.map_values(|x: StepSpec| x@)
}

/// Kind tag of a declared step's model.
pub open spec fn kind_model(s: StepSpecModel) -> StepKind {
    match s {
        StepSpecModel::PackageInstall { .. } => StepKind::PackageInstall,
        StepSpecModel::VcsCheckout { .. } => StepKind::VcsCheckout,
        StepSpecModel::Download { .. } => StepKind::Download,
        StepSpecModel::ArchiveExtract { .. } => StepKind::ArchiveExtract,
        StepSpecModel::TextTemplate { .. } => StepKind::TextTemplate,
        StepSpecModel::DirectoryOp { .. } => StepKind::DirectoryOp,
        StepSpecModel::SubContainerInclude { .. } => StepKind::SubContainerInclude,
        StepSpecModel::PackagingFinalize => StepKind::PackagingFinalize,
    }
}

/// Whether a step model describes an action that needs outbound network
/// access.
pub open spec fn requires_network_model(s: StepSpecModel) -> bool {
    match s {
        StepSpecModel::PackageInstall { .. } => true,
        StepSpecModel::VcsCheckout { .. } => true,
        StepSpecModel::Download { .. } => true,
        StepSpecModel::ArchiveExtract { .. } => true,
        _ => false,
    }
}

/// Whether any step of a list needs outbound network access.
pub open spec fn steps_need_network_model(sm: Seq<StepSpecModel>) -> bool {
    exists|i: int| 0 <= i < sm.len() && requires_network_model(sm[i])
}

/// Whether any step of a list needs outbound network access; decides whether
/// the network setup hook runs before the pipeline.
pub fn steps_need_network(steps: &Vec<StepSpec>) -> (r: bool)
    ensures
        r == steps_need_network_model(spec_steps_model(steps@)),
{
    let ghost sm = spec_steps_model(steps@);
    let n = steps.len();
    let mut i: usize = 0;
    while i < n
        invariant
            n == steps.len(),
            sm == spec_steps_model(steps@),
            0 <= i <= n,
            forall|j: int| 0 <= j < i ==> !requires_network_model(sm[j]),
        decreases n - i,
    {
        if steps[i].requires_network() {
            proof {
                assert(requires_network_model(sm[i as int]));
            }
            return true;
        }
        i += 1;
    }
    false
}

/// Model of a list of resolved steps.
pub open spec fn resolved_steps_model(s: Seq<ResolvedStep>) -> Seq<ResolvedStepModel> {
    s.map_values(|x: ResolvedStep| x@)
}

/// Model of a list of pinned packages.
pub open spec fn pinned_model(s: Seq<PinnedPackage>) -> Seq<(Seq<char>, Seq<char>)> {
    s.map_values(|p: PinnedPackage| p@)
}

/// Equality of two pinned-package lists, exactly when their models are equal.
pub fn eq_pinned(a: &Vec<PinnedPackage>, b: &Vec<PinnedPackage>) -> (r: bool)
    ensures
        r == (pinned_model(a@) == pinned_model(b@)),
{
    if a.len() != b.len() {
        assert(pinned_model(a@).len() != pinned_model(b@).len());
        return false;
    }
    let n = a.len();
    let mut i: usize = 0;
    while i < n
        invariant
            n == a.len() == b.len(),
            0 <= i <= n,
            forall|j: int| 0 <= j < i ==> pinned_model(a@)[j] == pinned_model(b@)[j],
        decreases n - i,
    {
        if !(a[i].name == b[i].name) {
            assert(pinned_model(a@)[i as int] != pinned_model(b@)[i as int]);
            return false;
        }
        if !(a[i].version == b[i].version) {
            assert(pinned_model(a@)[i as int] != pinned_model(b@)[i as int]);
            return false;
        }
        i += 1;
    }
    proof {
        assert(pinned_model(a@) =~= pinned_model(b@));
    }
    true
}

/// A copy of a pinned-package list whose model equals the original's.
pub fn copy_pinned(a: &Vec<PinnedPackage>) -> (r: Vec<PinnedPackage>)
    ensures
        pinned_model(r@) == pinned_model(a@),
{
    let mut out: Vec<PinnedPackage> = Vec::new();
    let n = a.len();
    let mut i: usize = 0;
    while i < n
        invariant
            n == a.len(),
            0 <= i <= n,
            out@.len() == i,
            forall|j: int| 0 <= j < i ==> pinned_model(out@)[j] == pinned_model(a@)[j],
        decreases n - i,
    {
        let p = PinnedPackage { name: a[i].name.clone(), version: a[i].version.clone() };
        out.push(p);
        i += 1;
    }
    proof {
        assert(pinned_model(out@) =~= pinned_model(a@));
    }
    out
}

/// Equality of two declared steps, exactly when their models are equal.
pub fn eq_step_spec(a: &StepSpec, b: &StepSpec) -> (r: bool)
    ensures
        r == (a@ == b@),
{
    match (a, b) {
        (
            StepSpec::PackageInstall { family: fa, packages: pa },
            StepSpec::PackageInstall { family: fb, packages: pb },
        ) => {
            if *fa != *fb {
                return false;
            }
            let packages_equal = eq_strings(pa, pb);
            if packages_equal {
                proof {
                    assert(a@ =~= b@);
                }
            }
            packages_equal
        },
        (
            StepSpec::VcsCheckout { url: ua, revision: ra },
            StepSpec::VcsCheckout { url: ub, revision: rb },
        ) => {
            if !(*ua == *ub) {
                return false;
            }
            match (ra, rb) {
                (Some(x), Some(y)) => *x == *y,
                (None, None) => true,
                _ => false,
            }
        },
        (StepSpec::Download { url: ua }, StepSpec::Download { url: ub }) => *ua == *ub,
        (
            StepSpec::ArchiveExtract { source_url: sa, into: ia },
            StepSpec::ArchiveExtract { source_url: sb, into: ib },
        ) => *sa == *sb && *ia == *ib,
        (
            StepSpec::TextTemplate { path: pa, contents: ca },
            StepSpec::TextTemplate { path: pb, contents: cb },
        ) => *pa == *pb && *ca == *cb,
        (StepSpec::DirectoryOp { path: pa }, StepSpec::DirectoryOp { path: pb }) => *pa == *pb,
        (
            StepSpec::SubContainerInclude { name: na },
            StepSpec::SubContainerInclude { name: nb },
        ) => *na == *nb,
        (StepSpec::PackagingFinalize, StepSpec::PackagingFinalize) => true,
        _ => false,
    }
}

/// Equality of two resolved steps, exactly when their models are equal. Two
/// resolved steps with the same model are the same effective action, whatever
/// incidental representation produced them.
pub fn eq_resolved_step(a: &ResolvedStep, b: &ResolvedStep) -> (r: bool)
    ensures
        r == (a@ == b@),
{
    match (a, b) {
        (
            ResolvedStep::PackageInstall { family: fa, packages: pa },
            ResolvedStep::PackageInstall { family: fb, packages: pb },
        ) => {
            if *fa != *fb {
                return false;
            }
            let packages_equal = eq_pinned(pa, pb);
            if packages_equal {
                proof {
                    assert(a@ =~= b@);
                }
            }
            packages_equal
        },
        (
            ResolvedStep::VcsCheckout { url: ua, revision: ra },
            ResolvedStep::VcsCheckout { url: ub, revision: rb },
        ) => *ua == *ub && *ra == *rb,
        (ResolvedStep::Download { url: ua }, ResolvedStep::Download { url: ub }) => *ua == *ub,
        (
            ResolvedStep::ArchiveExtract { source_url: sa, into: ia },
            ResolvedStep::ArchiveExtract { source_url: sb, into: ib },
        ) => *sa == *sb && *ia == *ib,
        (
            ResolvedStep::TextTemplate { path: pa, contents: ca },
            ResolvedStep::TextTemplate { path: pb, contents: cb },
        ) => *pa == *pb && *ca == *cb,
        (ResolvedStep::DirectoryOp { path: pa }, ResolvedStep::DirectoryOp { path: pb }) => (*pa == *pb),
        (
            ResolvedStep::SubContainerInclude { name: na },
            ResolvedStep::SubContainerInclude { name: nb },
        ) => *na == *nb,
        (ResolvedStep::PackagingFinalize, ResolvedStep::PackagingFinalize) => true,
        _ => false,
    }
}

/// A copy of a declared step whose model equals the original's.
pub fn copy_step_spec(a: &StepSpec) -> (r: StepSpec)
    ensures
        r@ == a@,
{
    match a {
        StepSpec::PackageInstall { family, packages } => {
            let out = StepSpec::PackageInstall { family: *family, packages: copy_strings(
                packages,
            ) };
            proof {
                assert(out@ =~= a@);
            }
            out
        },
        StepSpec::VcsCheckout { url, revision } => StepSpec::VcsCheckout {
            url: url.clone(),
            revision: match revision {
                Some(x) => Some(x.clone()),
                None => None,
            },
        },
        StepSpec::Download { url } => StepSpec::Download { url: url.clone() },
        StepSpec::ArchiveExtract { source_url, into } => StepSpec::ArchiveExtract {
            source_url: source_url.clone(),
            into: into.clone(),
        },
        StepSpec::TextTemplate { path, contents } => StepSpec::TextTemplate {
            path: path.clone(),
            contents: contents.clone(),
        },
        StepSpec::DirectoryOp { path } => StepSpec::DirectoryOp { path: path.clone() },
        StepSpec::SubContainerInclude { name } => StepSpec::SubContainerInclude {
            name: name.clone(),
        },
        StepSpec::PackagingFinalize => StepSpec::PackagingFinalize,
    }
}

/// A copy of a resolved step whose model equals the original's.
pub fn copy_resolved_step(a: &ResolvedStep) -> (r: ResolvedStep)
    ensures
        r@ == a@,
{
    match a {
        ResolvedStep::PackageInstall { family, packages } => {
            let out = ResolvedStep::PackageInstall { family: *family, packages: copy_pinned(
                packages,
            ) };
            proof {
                assert(out@ =~= a@);
            }
            out
        },
        ResolvedStep::VcsCheckout { url, revision } => ResolvedStep::VcsCheckout {
            url: url.clone(),
            revision: revision.clone(),
        },
        ResolvedStep::Download { url } => ResolvedStep::Download { url: url.clone() },
        ResolvedStep::ArchiveExtract { source_url, into } => ResolvedStep::ArchiveExtract {
            source_url: source_url.clone(),
            into: into.clone(),
        },
        ResolvedStep::TextTemplate { path, contents } => ResolvedStep::TextTemplate {
            path: path.clone(),
            contents: contents.clone(),
        },
        ResolvedStep::DirectoryOp { path } => ResolvedStep::DirectoryOp { path: path.clone() },
        ResolvedStep::SubContainerInclude { name } => ResolvedStep::SubContainerInclude {
            name: name.clone(),
        },
        ResolvedStep::PackagingFinalize => ResolvedStep::PackagingFinalize,
    }
}

/// A copy of a resolved-step list whose model equals the original's.
pub fn copy_resolved_steps(a: &Vec<ResolvedStep>) -> (r: Vec<ResolvedStep>)
    ensures
        resolved_steps_model(r@) == resolved_steps_model(a@),
{
    let mut out: Vec<ResolvedStep> = Vec::new();
    let n = a.len();
    let mut i: usize = 0;
    while i < n
        invariant
            n == a.len(),
            0 <= i <= n,
            out@.len() == i,
            forall|j: int|
                0 <= j < i ==> resolved_steps_model(out@)[j] == resolved_steps_model(a@)[j],
        decreases n - i,
    {
        let s = copy_resolved_step(&a[i]);
        out.push(s);
        i += 1;
    }
    proof {
        assert(resolved_steps_model(out@) =~= resolved_steps_model(a@));
    }
    out
}

/// Equality of two declared-step lists, exactly when their models are equal.
pub fn eq_spec_steps(a: &Vec<StepSpec>, b: &Vec<StepSpec>) -> (r: bool)
    ensures
        r == (spec_steps_model(a@) == spec_steps_model(b@)),
{
    if a.len() != b.len() {
        assert(spec_steps_model(a@).len() != spec_steps_model(b@).len());
        return false;
    }
    let n = a.len();
    let mut i: usize = 0;
    while i < n
        invariant
            n == a.len() == b.len(),
            0 <= i <= n,
            forall|j: int| 0 <= j < i ==> spec_steps_model(a@)[j] == spec_steps_model(b@)[j],
        decreases n - i,
    {
        if !eq_step_spec(&a[i], &b[i]) {
            assert(spec_steps_model(a@)[i as int] != spec_steps_model(b@)[i as int]);
            return false;
        }
        i += 1;
    }
    proof {
        assert(spec_steps_model(a@) =~= spec_steps_model(b@));
    }
    true
}

/// Equality of two resolved-step lists, exactly when their models are equal.
pub fn eq_resolved_steps(a: &Vec<ResolvedStep>, b: &Vec<ResolvedStep>) -> (r: bool)
    ensures
        r == (resolved_steps_model(a@) == resolved_steps_model(b@)),
{
    if a.len() != b.len() {
        assert(resolved_steps_model(a@).len() != resolved_steps_model(b@).len());
        return false;
    }
    let n = a.len();
    let mut i: usize = 0;
    while i < n
        invariant
            n == a.len() == b.len(),
            0 <= i <= n,
            forall|j: int|
                0 <= j < i ==> resolved_steps_model(a@)[j] == resolved_steps_model(b@)[j],
        decreases n - i,
    {
        if !eq_resolved_step(&a[i], &b[i]) {
            assert(resolved_steps_model(a@)[i as int] != resolved_steps_model(b@)[i as int]);
            return false;
        }
        i += 1;
    }
    proof {
        assert(resolved_steps_model(a@) =~= resolved_steps_model(b@));
    }
    true
}

/// A copy of a declared-step list whose model equals the original's.
pub fn copy_spec_steps(a: &Vec<StepSpec>) -> (r: Vec<StepSpec>)
    ensures
        spec_steps_model(r@) == spec_steps_model(a@),
{
    let mut out: Vec<StepSpec> = Vec::new();
    let n = a.len();
    let mut i: usize = 0;
    while i < n
        invariant
            n == a.len(),
            0 <= i <= n,
            out@.len() == i,
            forall|j: int| 0 <= j < i ==> spec_steps_model(out@)[j] == spec_steps_model(a@)[j],
        decreases n - i,
    {
        let s = copy_step_spec(&a[i]);
        out.push(s);
        i += 1;
    }
    proof {
        assert(spec_steps_model(out@) =~= spec_steps_model(a@));
    }
    out
}

} // verus!
