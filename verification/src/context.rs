//! The build context: mutable state owned by exactly one in-progress build.
//!
//! It carries the settings snapshot, the detected distro family (set at most
//! once), the fingerprint accumulator — the ordered effective identities of
//! the steps resolved so far — the append-only timing log, and the path of
//! the build root under construction.

use vstd::prelude::*;

use crate::error::BuildError;
use crate::error::ErrorClass;
use crate::kv::copy_pairs;
use crate::recipe::Recipe;
use crate::recipe::Settings;
use crate::step::DistroFamily;
use crate::step::ResolvedStepModel;
use crate::step::StepKind;
use crate::step::resolved_steps_model;

verus! {

/// One record of the timing log: which step ran, of what kind, for how long.
/// Purely observational; durations are reported by the executor.
#[derive(Clone, Copy, PartialEq, Eq, Structural, Debug)]
pub struct TimingEntry {
    pub index: usize,
    pub kind: StepKind,
    pub duration_ms: u64,
}

impl View for TimingEntry {
    type V = (int, StepKind, int);

    open spec fn view(&self) -> (int, StepKind, int) {
        (self.index as int, self.kind, self.duration_ms as int)
    }
}

/// Model of a timing log.
pub open spec fn timing_model(s: Seq<TimingEntry>) -> Seq<(int, StepKind, int)> {
    s.map_values(|e: TimingEntry| e@)
}

/// Mutable per-build state, owned exclusively by one build for its duration.
pub struct Context {
    pub container: String,
    pub version: String,
    pub settings: Settings,
    pub distro: Option<DistroFamily>,
    pub resolved: Vec<crate::step::ResolvedStep>,
    pub timing_log: Vec<TimingEntry>,
    pub build_root: String,
}

/// Mathematical model of a build context.
#[verifier::ext_equal]
pub struct ContextModel {
    pub container: Seq<char>,
    pub version: Seq<char>,
    pub settings: Seq<(Seq<char>, Seq<char>)>,
    pub distro: Option<DistroFamily>,
    pub resolved: Seq<ResolvedStepModel>,
    pub timing: Seq<(int, StepKind, int)>,
    pub build_root: Seq<char>,
}

impl View for Context {
    type V = ContextModel;

    open spec fn view(&self) -> ContextModel {
        ContextModel {
            container: self.container@,
            version: self.version@,
            settings: self.settings@,
            distro: self.distro,
            resolved: resolved_steps_model(self.resolved@),
            timing: timing_model(self.timing_log@),
            build_root: self.build_root@,
        }
    }
}

impl Context {
    /// A fresh context for one build: the settings snapshot is copied at
    /// build start, the distro family is unresolved, and both the
    /// fingerprint accumulator and the timing log are empty.
    pub fn new(recipe: &Recipe, settings: &Settings, build_root: String) -> (c: Context)
        ensures
            c@.container == recipe@.container,
            c@.version == recipe@.version,
            c@.settings == settings@,
            c@.distro is None,
            c@.resolved == Seq::<ResolvedStepModel>::empty(),
            c@.timing == Seq::<(int, StepKind, int)>::empty(),
            c@.build_root == build_root@,
    {
        let c = Context {
            container: recipe.container.clone(),
            version: recipe.version.clone(),
            settings: Settings { entries: copy_pairs(&settings.entries) },
            distro: None,
            resolved: Vec::new(),
            timing_log: Vec::new(),
            build_root,
        };
        proof {
            assert(c@.resolved =~= Seq::<ResolvedStepModel>::empty());
            assert(c@.timing =~= Seq::<(int, StepKind, int)>::empty());
        }
        c
    }

    /// Records the detected distro family. It may be set at most once;
    /// setting it a second time violates a context invariant and is fatal,
    /// leaving the context unchanged.
    pub fn set_distro(&mut self, d: DistroFamily) -> (r: Result<(), BuildError>)
        ensures
            old(self)@.distro is None ==> r is Ok && final(self)@ == (ContextModel {
                distro: Some(d),
                ..old(self)@
            }),
            old(self)@.distro is Some ==> r is Err && r->Err_0.class == ErrorClass::Fatal
                && final(self)@ == old(self)@,
    {
        match self.distro {
            None => {
                self.distro = Some(d);
                proof {
                    assert(self@ =~= (ContextModel { distro: Some(d), ..old(self)@ }));
                }
                Ok(())
            },
            Some(_) => Err(
                BuildError {
                    class: ErrorClass::Fatal,
                    step_index: None,
                    message: String::from_str("distro family resolved twice"),
                },
            ),
        }
    }
}

} // verus!
