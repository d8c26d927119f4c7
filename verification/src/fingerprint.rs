//! The fingerprint model: the cache key of a build.
//!
//! A fingerprint is the canonical content of a build's inputs. The declared
//! form is computable from the recipe and settings alone, before any step
//! runs; the resolved form additionally carries the ordered effective
//! identities of the resolved steps, accumulated step by step as resolution
//! proceeds. Two builds with equal fingerprints are equivalent for caching:
//! equality is exactly equality of content, never of incidental
//! representation, so any change to a single resolved parameter changes the
//! fingerprint, and nothing else does.

use vstd::prelude::*;

use crate::kv::copy_pairs;
use crate::kv::eq_pairs;
use crate::recipe::Recipe;
use crate::recipe::RecipeModel;
use crate::recipe::Settings;
use crate::step::ResolvedStep;
use crate::step::ResolvedStepModel;
use crate::step::StepSpec;
use crate::step::StepSpecModel;
use crate::step::copy_spec_steps;
use crate::step::eq_resolved_steps;
use crate::step::eq_spec_steps;
use crate::step::resolved_steps_model;
use crate::step::spec_steps_model;

verus! {

/// Declared fingerprint: canonical content of the recipe and the settings
/// snapshot, available before any resolution or execution.
pub struct Fingerprint {
    pub container: String,
    pub version: String,
    pub recipe_settings: Vec<(String, String)>,
    pub build_settings: Vec<(String, String)>,
    pub steps: Vec<StepSpec>,
}

/// Mathematical model of a declared fingerprint.
#[verifier::ext_equal]
pub struct FingerprintModel {
    pub container: Seq<char>,
    pub version: Seq<char>,
    pub recipe_settings: Seq<(Seq<char>, Seq<char>)>,
    pub build_settings: Seq<(Seq<char>, Seq<char>)>,
    pub steps: Seq<StepSpecModel>,
}

impl View for Fingerprint {
    type V = FingerprintModel;

    open spec fn view(&self) -> FingerprintModel {
        FingerprintModel {
            container: self.container@,
            version: self.version@,
            recipe_settings: crate::kv::pairs_model(self.recipe_settings@),
            build_settings: crate::kv::pairs_model(self.build_settings@),
            steps: spec_steps_model(self.steps@),
        }
    }
}

/// Resolved fingerprint: the declared content together with the ordered
/// effective identities of the resolved steps. This is what a successful
/// build commits.
pub struct ResolvedFingerprint {
    pub container: String,
    pub version: String,
    pub recipe_settings: Vec<(String, String)>,
    pub build_settings: Vec<(String, String)>,
    pub steps: Vec<ResolvedStep>,
}

/// Mathematical model of a resolved fingerprint.
#[verifier::ext_equal]
pub struct ResolvedFingerprintModel {
    pub container: Seq<char>,
    pub version: Seq<char>,
    pub recipe_settings: Seq<(Seq<char>, Seq<char>)>,
    pub build_settings: Seq<(Seq<char>, Seq<char>)>,
    pub steps: Seq<ResolvedStepModel>,
}

impl View for ResolvedFingerprint {
    type V = ResolvedFingerprintModel;

    open spec fn view(&self) -> ResolvedFingerprintModel {
        ResolvedFingerprintModel {
            container: self.container@,
            version: self.version@,
            recipe_settings: crate::kv::pairs_model(self.recipe_settings@),
            build_settings: crate::kv::pairs_model(self.build_settings@),
            steps: resolved_steps_model(self.steps@),
        }
    }
}

/// The declared fingerprint of a recipe and a settings snapshot, as a model:
/// a function of the two models alone.
pub open spec fn declared_fingerprint_model(r: RecipeModel, s: Seq<(Seq<char>, Seq<char>)>)
    -> FingerprintModel {
    FingerprintModel {
        container: r.container,
        version: r.version,
        recipe_settings: r.settings,
        build_settings: s,
        steps: r.steps,
    }
}

/// The resolved fingerprint a build with these inputs and these resolved step
/// identities commits, as a model.
pub open spec fn resolved_fingerprint_model(
    r: RecipeModel,
    s: Seq<(Seq<char>, Seq<char>)>,
    resolved: Seq<ResolvedStepModel>,
) -> ResolvedFingerprintModel {
    ResolvedFingerprintModel {
        container: r.container,
        version: r.version,
        recipe_settings: r.settings,
        build_settings: s,
        steps: resolved,
    }
}

/// Computes the declared fingerprint of a recipe and a settings snapshot.
/// The result depends on the models of the inputs alone.
pub fn declared_fingerprint(r: &Recipe, s: &Settings) -> (f: Fingerprint)
    ensures
        f@ == declared_fingerprint_model(r@, s@),
{
    let f = Fingerprint {
        container: r.container.clone(),
        version: r.version.clone(),
        recipe_settings: copy_pairs(&r.settings),
        build_settings: copy_pairs(&s.entries),
        steps: copy_spec_steps(&r.steps),
    };
    proof {
        assert(f@ =~= declared_fingerprint_model(r@, s@));
    }
    f
}

/// Equality of two declared fingerprints, exactly when their models are
/// equal.
pub fn eq_fingerprint(a: &Fingerprint, b: &Fingerprint) -> (r: bool)
    ensures
        r == (a@ == b@),
{
    if !(a.container == b.container) {
        return false;
    }
    if !(a.version == b.version) {
        return false;
    }
    if !eq_pairs(&a.recipe_settings, &b.recipe_settings) {
        return false;
    }
    if !eq_pairs(&a.build_settings, &b.build_settings) {
        return false;
    }
    let steps_equal = eq_spec_steps(&a.steps, &b.steps);
    if steps_equal {
        proof {
            assert(a@ =~= b@);
        }
    }
    steps_equal
}

/// Equality of two resolved fingerprints, exactly when their models are
/// equal.
pub fn eq_resolved_fingerprint(a: &ResolvedFingerprint, b: &ResolvedFingerprint) -> (r: bool)
    ensures
        r == (a@ == b@),
{
    if !(a.container == b.container) {
        return false;
    }
    if !(a.version == b.version) {
        return false;
    }
    if !eq_pairs(&a.recipe_settings, &b.recipe_settings) {
        return false;
    }
    if !eq_pairs(&a.build_settings, &b.build_settings) {
        return false;
    }
    let steps_equal = eq_resolved_steps(&a.steps, &b.steps);
    if steps_equal {
        proof {
            assert(a@ =~= b@);
        }
    }
    steps_equal
}

/// A copy of a declared fingerprint whose model equals the original's.
pub fn copy_fingerprint(a: &Fingerprint) -> (r: Fingerprint)
    ensures
        r@ == a@,
{
    let f = Fingerprint {
        container: a.container.clone(),
        version: a.version.clone(),
        recipe_settings: copy_pairs(&a.recipe_settings),
        build_settings: copy_pairs(&a.build_settings),
        steps: copy_spec_steps(&a.steps),
    };
    proof {
        assert(f@ =~= a@);
    }
    f
}

/// A copy of a resolved fingerprint whose model equals the original's.
pub fn copy_resolved_fingerprint(a: &ResolvedFingerprint) -> (r: ResolvedFingerprint)
    ensures
        r@ == a@,
{
    let f = ResolvedFingerprint {
        container: a.container.clone(),
        version: a.version.clone(),
        recipe_settings: copy_pairs(&a.recipe_settings),
        build_settings: copy_pairs(&a.build_settings),
        steps: crate::step::copy_resolved_steps(&a.steps),
    };
    proof {
        assert(f@ =~= a@);
    }
    f
}

/// Law: the fingerprint identifies resolved content. Two resolved
/// fingerprints are equal exactly when every component of their content is,
/// so equality never depends on incidental representation.
pub proof fn lemma_fingerprint_identifies_content(
    a: ResolvedFingerprintModel,
    b: ResolvedFingerprintModel,
)
    ensures
        (a == b) <==> (a.container == b.container && a.version == b.version && a.recipe_settings
            == b.recipe_settings && a.build_settings == b.build_settings && a.steps == b.steps),
{
    if a.container == b.container && a.version == b.version && a.recipe_settings
        == b.recipe_settings && a.build_settings == b.build_settings && a.steps == b.steps {
        assert(a =~= b);
    }
}

/// Law: fingerprint sensitivity. Changing the effective identity of any
/// single resolved step changes the resolved fingerprint.
pub proof fn lemma_fingerprint_sensitivity(
    a: ResolvedFingerprintModel,
    b: ResolvedFingerprintModel,
    i: int,
)
    requires
        0 <= i < a.steps.len(),
        0 <= i < b.steps.len(),
        a.steps[i] != b.steps[i],
    ensures
        a != b,
{
}

/// Law: the declared fingerprint is a function of the recipe and settings
/// models alone; builds with equal declared inputs share one declared
/// fingerprint, whatever values represent them.
pub proof fn lemma_declared_fingerprint_deterministic(
    r1: RecipeModel,
    s1: Seq<(Seq<char>, Seq<char>)>,
    r2: RecipeModel,
    s2: Seq<(Seq<char>, Seq<char>)>,
)
    requires
        r1 == r2,
        s1 == s2,
    ensures
        declared_fingerprint_model(r1, s1) == declared_fingerprint_model(r2, s2),
{
}

} // verus!
