//! Recipes: the metadata of a package and the scripts that build it.

use crate::error::{PkgerError, RecipeFault};
use crate::metadata::{Metadata, MetadataView};
use crate::target::BuildTarget;
use crate::text::list_contains;
use vstd::prelude::*;

verus! {

/// One command of a script phase, with the images and the format it is
/// meant for.
#[derive(Clone, Debug, PartialEq, Eq)]
pub struct Step {
    pub cmd: String,
    /// The images the command runs on; every image where there is no list.
    pub images: Option<Vec<String>>,
    /// The format the command runs for; every format where none is named.
    pub target: Option<BuildTarget>,
}

pub struct StepView {
    pub cmd: Seq<char>,
    pub images: Option<Seq<Seq<char>>>,
    pub target: Option<BuildTarget>,
}

impl View for Step {
    type V = StepView;

    open spec fn view(&self) -> StepView {
        StepView { cmd: self.cmd@, images: self.images.deep_view(), target: self.target }
    }
}

impl DeepView for Step {
    type V = StepView;

    open spec fn deep_view(&self) -> StepView {
        self@
    }
}

impl StepView {
    /// Whether the step names a format.
    pub open spec fn has_target_specified(self) -> bool {
        self.target is Some
    }

    /// Whether the format filter lets the step run for `build_target`.
    pub open spec fn should_run_on(self, build_target: BuildTarget) -> bool {
        match self.target {
            Some(t) => t == build_target,
            None => true,
        }
    }

    /// Whether the image list lets the step run on `image`.
    pub open spec fn permits_image(self, image: Seq<char>) -> bool {
        match self.images {
            Some(list) => list.contains(image),
            None => true,
        }
    }

    /// Whether the step runs for a target. A step that names a format is
    /// judged by the format alone; any other step by its image list.
    pub open spec fn runs_on(self, image: Seq<char>, build_target: BuildTarget) -> bool {
        (self.permits_image(image) || self.has_target_specified()) && self.should_run_on(
            build_target,
        )
    }
}

/// The format filter that a recipe writes as `target`: none where it
/// writes none, and a fault where it writes a name that is no format.
pub open spec fn target_filter_of(target: Option<Seq<char>>) -> Result<
    Option<BuildTarget>,
    RecipeFault,
> {
    match target {
        None => Ok(None),
        Some(name) => match BuildTarget::named(name) {
            Some(t) => Ok(Some(t)),
            None => Err(RecipeFault::StepTarget),
        },
    }
}

impl Step {
    /// A step that runs on every image and for every format.
    pub fn new(cmd: &str) -> (r: Step)
        ensures
            r@ == (StepView { cmd: cmd@, images: None, target: None }),
    {
        Step { cmd: cmd.to_owned(), images: None, target: None }
    }

    /// A step as a recipe writes it, with the format it is meant for given
    /// by name.
    pub fn from_parts(cmd: String, images: Option<Vec<String>>, target: Option<&str>) -> (r: Result<
        Step,
        PkgerError,
    >)
        ensures
            match r {
                Ok(step) => target_filter_of(target.deep_view()) == Ok::<
                    Option<BuildTarget>,
                    RecipeFault,
                >(step@.target) && step@.cmd == cmd@ && step@.images == images.deep_view(),
                Err(e) => target_filter_of(target.deep_view()) matches Err(fault) && e
                    == PkgerError::RecipeInvalid(fault),
            },
    {
        let target = match target {
            None => None,
            Some(name) => match BuildTarget::parse(name) {
                Some(t) => Some(t),
                None => {
                    return Err(PkgerError::RecipeInvalid(RecipeFault::StepTarget));
                },
            },
        };
        Ok(Step { cmd, images, target })
    }

    /// Whether the step names a format.
    pub fn has_target_specified(&self) -> (r: bool)
        ensures
            r == self@.has_target_specified(),
    {
        self.target.is_some()
    }

    /// Whether the format filter lets the step run for `build_target`.
    pub fn should_run_on(&self, build_target: BuildTarget) -> (r: bool)
        ensures
            r == self@.should_run_on(build_target),
    {
        match self.target {
            Some(t) => t == build_target,
            None => true,
        }
    }

    /// Whether the image list lets the step run on `image`.
    pub fn permits_image(&self, image: &str) -> (r: bool)
        ensures
            r == self@.permits_image(image@),
    {
        match &self.images {
            Some(list) => list_contains(list, image),
            None => true,
        }
    }

    /// Whether the step is executed for the given image and format.
    pub fn runs_on(&self, image: &str, build_target: BuildTarget) -> (r: bool)
        ensures
            r == self@.runs_on(image@, build_target),
    {
        if !self.permits_image(image) && !self.has_target_specified() {
            return false;
        }
        self.should_run_on(build_target)
    }
}

/// A step with an image list and no format runs on the listed images and on
/// no other.
pub proof fn lemma_image_filter(step: StepView, image: Seq<char>, build_target: BuildTarget)
    requires
        step.images is Some,
        step.target is None,
    ensures
        step.runs_on(image, build_target) <==> step.images.unwrap().contains(image),
{
}

/// A step that names a format runs for that format and for no other,
/// whatever its image list says. Where the image list permits the image, or
/// there is none, this is also to say that the step runs exactly when both
/// filters let it.
pub proof fn lemma_target_filter(step: StepView, image: Seq<char>, build_target: BuildTarget)
    requires
        step.target is Some,
    ensures
        step.runs_on(image, build_target) <==> step.target.unwrap() == build_target,
        step.permits_image(image) ==> (step.runs_on(image, build_target) <==> step.target.unwrap()
            == build_target && step.permits_image(image)),
{
}

/// One script phase of a recipe.
#[derive(Clone, Debug, PartialEq, Eq)]
pub struct Script {
    pub working_dir: Option<String>,
    pub shell: Option<String>,
    pub steps: Vec<Step>,
}

pub struct ScriptView {
    pub working_dir: Option<Seq<char>>,
    pub shell: Option<Seq<char>>,
    pub steps: Seq<StepView>,
}

impl View for Script {
    type V = ScriptView;

    open spec fn view(&self) -> ScriptView {
        ScriptView {
            working_dir: self.working_dir.deep_view(),
            shell: self.shell.deep_view(),
            steps: self.steps.deep_view(),
        }
    }
}

impl DeepView for Script {
    type V = ScriptView;

    open spec fn deep_view(&self) -> ScriptView {
        self@
    }
}

/// A recipe: the metadata of the package and the three script phases.
#[derive(Clone, Debug, PartialEq, Eq)]
pub struct Recipe {
    pub metadata: Metadata,
    pub configure_script: Option<Script>,
    pub build_script: Script,
    pub install_script: Option<Script>,
}

pub struct RecipeView {
    pub metadata: MetadataView,
    pub configure_script: Option<ScriptView>,
    pub build_script: ScriptView,
    pub install_script: Option<ScriptView>,
}

impl View for Recipe {
    type V = RecipeView;

    open spec fn view(&self) -> RecipeView {
        RecipeView {
            metadata: self.metadata@,
            configure_script: self.configure_script.deep_view(),
            build_script: self.build_script@,
            install_script: self.install_script.deep_view(),
        }
    }
}

} // verus!
