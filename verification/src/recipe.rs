//! Recipes and build settings.
//!
//! A `Recipe` is the validated, immutable description of one container
//! build: container name, ordered declared steps, the recipe's own declared
//! settings, and an optional pinned version (the empty string when unpinned).
//! `Settings` is the read-only snapshot of user-level build settings taken at
//! build start. The core never mutates either.

use vstd::prelude::*;

use crate::kv::pairs_model;
use crate::step::StepSpec;
use crate::step::StepSpecModel;
use crate::step::spec_steps_model;

verus! {

/// Validated description of one container build, owned by the caller.
pub struct Recipe {
    pub container: String,
    pub version: String,
    pub settings: Vec<(String, String)>,
    pub steps: Vec<StepSpec>,
}

/// Mathematical model of a recipe.
#[verifier::ext_equal]
pub struct RecipeModel {
    pub container: Seq<char>,
    pub version: Seq<char>,
    pub settings: Seq<(Seq<char>, Seq<char>)>,
    pub steps: Seq<StepSpecModel>,
}

impl View for Recipe {
    type V = RecipeModel;

    open spec fn view(&self) -> RecipeModel {
        RecipeModel {
            container: self.container@,
            version: self.version@,
            settings: pairs_model(self.settings@),
            steps: spec_steps_model(self.steps@),
        }
    }
}

/// Read-only snapshot of user-level build settings, copied at build start.
pub struct Settings {
    pub entries: Vec<(String, String)>,
}

impl View for Settings {
    type V = Seq<(Seq<char>, Seq<char>)>;

    open spec fn view(&self) -> Seq<(Seq<char>, Seq<char>)> {
        pairs_model(self.entries@)
    }
}

impl Recipe {
    /// Whether any declared step of the recipe needs outbound network access;
    /// decides whether the network setup hook runs before the pipeline.
    pub open spec fn spec_needs_network(&self) -> bool {
        exists|j: int| 0 <= j < self.steps@.len() && self.steps@[j].spec_requires_network()
    }

    /// Whether any declared step of the recipe needs outbound network access.
    pub fn needs_network(&self) -> (r: bool)
        ensures
            r == self.spec_needs_network(),
    {
        let n = self.steps.len();
        let mut i: usize = 0;
        while i < n
            invariant
                n == self.steps.len(),
                0 <= i <= n,
                forall|j: int| 0 <= j < i ==> !self.steps@[j].spec_requires_network(),
            decreases n - i,
        {
            if self.steps[i].requires_network() {
                return true;
            }
            i += 1;
        }
        false
    }
}

} // verus!
