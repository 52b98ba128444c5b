//! The package assembler: turns the install tree of a job into the package
//! of its format.

use crate::deb::{deb_build, deb_steps};
use crate::error::{PkgerError, PkgerErrorView};
use crate::metadata::{deb_arch_of, Metadata, MetadataView};
use crate::recipe::Recipe;
use crate::rpm::{rpm_file_name, RpmBuild, RpmBuildView};
use crate::scripts::BuildContext;
use crate::session::{
    copy_action, copy_error, Action, ActionView, Event, EventView, ExecOpts, ExecOptsView,
};
use crate::state::ImageState;
use crate::target::BuildTarget;
use crate::text::{join_path, joined};
use vstd::prelude::*;
use vstd::string::*;

verus! {

/// The failure of the assembly that a failed step amounts to: its cause is
/// the step's own failure in words, behind what the step was meant to do.
pub open spec fn assembly_failure(format: BuildTarget, context: Option<Seq<char>>, e: PkgerErrorView)
    -> PkgerErrorView {
    PkgerErrorView::PackageAssemblyFailed {
        format,
        cause: match context {
            Some(c) => c + " - "@ + e.message(),
            None => e.message(),
        },
    }
}

/// Wraps the failure of a step into a failure of the assembly.
pub fn fail_assembly(format: BuildTarget, context: Option<&str>, e: &PkgerError) -> (r: PkgerError)
    ensures
        r@ == assembly_failure(
            format,
            match context {
                Some(c) => Some(c@),
                None => None,
            },
            e@,
        ),
{
    let mut cause = String::new();
    if let Some(c) = context {
        cause.append(c);
        cause.append(" - ");
    }
    cause.append(e.message().as_str());
    PkgerError::PackageAssemblyFailed { format, cause }
}

/// One step of an assembly that is planned ahead: what is asked of the
/// session, and what a failure of the step is reported as.
#[derive(Clone, Debug, PartialEq, Eq)]
pub struct PlannedStep {
    pub action: Action,
    pub context: Option<String>,
}

pub struct PlannedStepView {
    pub action: ActionView,
    pub context: Option<Seq<char>>,
}

impl View for PlannedStep {
    type V = PlannedStepView;

    open spec fn view(&self) -> PlannedStepView {
        PlannedStepView { action: self.action@, context: self.context.deep_view() }
    }
}

impl DeepView for PlannedStep {
    type V = PlannedStepView;

    open spec fn deep_view(&self) -> PlannedStepView {
        self@
    }
}

/// An assembly whose steps are all known when it starts.
#[derive(Debug, PartialEq, Eq)]
pub struct PlannedBuild {
    format: BuildTarget,
    steps: Vec<PlannedStep>,
    done: usize,
    artifact: String,
    failure: Option<PkgerError>,
}

pub struct PlannedBuildView {
    pub format: BuildTarget,
    pub steps: Seq<PlannedStepView>,
    /// How many of the steps have succeeded.
    pub done: nat,
    /// Where the package lies on the host once every step has succeeded.
    pub artifact: Seq<char>,
    pub failure: Option<PkgerErrorView>,
}

impl PlannedBuildView {
    /// An assembly at its start.
    pub open spec fn start(format: BuildTarget, steps: Seq<PlannedStepView>, artifact: Seq<char>)
        -> PlannedBuildView {
        PlannedBuildView { format, steps, done: 0, artifact, failure: None }
    }

    /// What is to be done in this state: nothing more after a failure, else
    /// the next step, else nothing because the package is there.
    pub open spec fn action(self) -> ActionView {
        match self.failure {
            Some(e) => ActionView::Fail(e),
            None => if self.done < self.steps.len() {
                self.steps[self.done as int].action
            } else {
                ActionView::Finish { artifact: self.artifact }
            },
        }
    }

    /// The state after what came of the current step is known. A failed
    /// step fails the assembly; any other leads to the next step. An
    /// assembly that has failed or finished stays as it is.
    pub open spec fn after(self, event: EventView) -> PlannedBuildView {
        if self.failure is Some || self.done >= self.steps.len() {
            self
        } else {
            let step = self.steps[self.done as int];
            match event.failure(step.action.command()) {
                Some(e) => PlannedBuildView {
                    failure: Some(assembly_failure(self.format, step.context, e)),
                    ..self
                },
                None => PlannedBuildView { done: self.done + 1, ..self },
            }
        }
    }
}

impl View for PlannedBuild {
    type V = PlannedBuildView;

    closed spec fn view(&self) -> PlannedBuildView {
        PlannedBuildView {
            format: self.format,
            steps: self.steps.deep_view(),
            done: self.done as nat,
            artifact: self.artifact@,
            failure: self.failure.deep_view(),
        }
    }
}

impl PlannedBuild {
    #[verifier::type_invariant]
    spec fn valid(self) -> bool {
        self.done <= self.steps@.len()
    }

    /// An assembly of the given steps at its start.
    pub fn new(format: BuildTarget, steps: Vec<PlannedStep>, artifact: String) -> (r: PlannedBuild)
        ensures
            r@ == PlannedBuildView::start(format, steps.deep_view(), artifact@),
    {
        PlannedBuild { format, steps, done: 0, artifact, failure: None }
    }

    /// What the caller has to do next.
    pub fn action(&self) -> (r: Action)
        ensures
            r@ == self@.action(),
    {
        proof {
            use_type_invariant(self);
        }
        match &self.failure {
            Some(e) => Action::Fail(copy_error(e)),
            None => {
                if self.done < self.steps.len() {
                    copy_action(&self.steps[self.done].action)
                } else {
                    Action::Finish { artifact: self.artifact.clone() }
                }
            },
        }
    }

    /// Takes in what came of the action that `action` handed out.
    pub fn advance(&mut self, event: Event)
        ensures
            final(self)@ == old(self)@.after(event@),
    {
        proof {
            use_type_invariant(&*self);
        }
        if self.failure.is_some() || self.done >= self.steps.len() {
            return ;
        }
        let step = &self.steps[self.done];
        let cmd = step.action.command();
        match event.settle(cmd.as_str()) {
            Err(e) => {
                let context = match &step.context {
                    Some(c) => Some(c.as_str()),
                    None => None,
                };
                let failure = fail_assembly(self.format, context, &e);
                self.failure = Some(failure);
            },
            Ok(_) => {
                self.done = self.done + 1;
            },
        }
    }
}

/// A step that executes `cmd`, from `dir` where one is given.
pub open spec fn exec_step(cmd: Seq<char>, dir: Option<Seq<char>>, context: Seq<char>)
    -> PlannedStepView {
    PlannedStepView {
        action: ActionView::Exec(
            ExecOptsView { cmd, working_dir: dir, shell: None, user: None, env: Seq::empty() },
        ),
        context: Some(context),
    }
}

/// A step that executes `cmd`.
pub fn planned_exec(cmd: String, dir: Option<&str>, context: &str) -> (r: PlannedStep)
    ensures
        r@ == exec_step(
            cmd@,
            match dir {
                Some(d) => Some(d@),
                None => None,
            },
            context@,
        ),
{
    let working_dir = match dir {
        Some(d) => Some(d.to_owned()),
        None => None,
    };
    let opts = ExecOpts { cmd, working_dir, shell: None, user: None, env: Vec::new() };
    assert(opts.env.deep_view() == Seq::<(Seq<char>, Seq<char>)>::empty());
    PlannedStep { action: Action::Exec(opts), context: Some(context.to_owned()) }
}

/// The name of the archive of a gzip build: name and version of the
/// package.
pub open spec fn gzip_file_name(meta: MetadataView) -> Seq<char> {
    meta.name + "-"@ + meta.version + ".tar.gz"@
}

/// The name of a DEB package: name, version and architecture, with
/// underscores between them.
pub open spec fn deb_file_name(meta: MetadataView) -> Seq<char> {
    meta.name + "_"@ + meta.version + "_"@ + deb_arch_of(meta.arch) + ".deb"@
}

/// The name of the package file that a job leaves in the output directory.
pub open spec fn artifact_name_of(meta: MetadataView, target: BuildTarget) -> Seq<char> {
    match target {
        BuildTarget::Rpm => rpm_file_name(meta),
        BuildTarget::Deb => deb_file_name(meta),
        BuildTarget::Gzip => gzip_file_name(meta),
    }
}

/// The name of the package file of a recipe for a format.
pub fn artifact_name(meta: &Metadata, target: BuildTarget) -> (r: String)
    ensures
        r@ == artifact_name_of(meta@, target),
{
    let mut r = meta.name.clone();
    match target {
        BuildTarget::Rpm => {
            r.append("-");
            r.append(meta.version.as_str());
            r.append("-");
            r.append(meta.rpm_release());
            r.append(".");
            r.append(meta.rpm_arch());
            r.append(".rpm");
        },
        BuildTarget::Deb => {
            r.append("_");
            r.append(meta.version.as_str());
            r.append("_");
            r.append(meta.deb_arch());
            r.append(".deb");
        },
        BuildTarget::Gzip => {
            r.append("-");
            r.append(meta.version.as_str());
            r.append(".tar.gz");
        },
    }
    r
}

/// The directory inside the container in which a gzip build leaves its
/// archive.
pub open spec fn gzip_dir(meta: MetadataView) -> Seq<char> {
    "/tmp/"@ + meta.name + "-"@ + meta.version + "-gzip"@
}

/// The steps of a gzip build: make the directory for the archive, pack the
/// install tree into the archive, and bring the archive to the host.
pub open spec fn gzip_steps(meta: MetadataView, container_out_dir: Seq<char>, output_dir: Seq<char>)
    -> Seq<PlannedStepView> {
    seq![
        PlannedStepView {
            action: ActionView::CreateDirs(seq![gzip_dir(meta)]),
            context: Some("failed to create directories"@),
        },
        exec_step(
            "tar -zcvf "@ + joined(gzip_dir(meta), gzip_file_name(meta)) + " ."@,
            Some(container_out_dir),
            "failed to archive the install tree"@,
        ),
        PlannedStepView {
            action: ActionView::Download { from: gzip_dir(meta), to: output_dir },
            context: Some("failed to download files"@),
        },
    ]
}

/// Plans the build of a gzipped tarball: the install tree is packed as it
/// is, so an empty tree gives an empty archive.
pub fn gzip_build(meta: &Metadata, container_out_dir: &str, output_dir: &str) -> (r: PlannedBuild)
    ensures
        r@ == PlannedBuildView::start(
            BuildTarget::Gzip,
            gzip_steps(meta@, container_out_dir@, output_dir@),
            joined(output_dir@, gzip_file_name(meta@)),
        ),
{
    let file = artifact_name(meta, BuildTarget::Gzip);
    let mut dir = "/tmp/".to_owned();
    dir.append(meta.name.as_str());
    dir.append("-");
    dir.append(meta.version.as_str());
    dir.append("-gzip");
    let mut dirs: Vec<String> = Vec::new();
    dirs.push(dir.clone());
    assert(dirs.deep_view() == seq![gzip_dir(meta@)]);
    let mut cmd = "tar -zcvf ".to_owned();
    cmd.append(join_path(dir.as_str(), file.as_str()).as_str());
    cmd.append(" .");
    let mut steps: Vec<PlannedStep> = Vec::new();
    steps.push(
        PlannedStep {
            action: Action::CreateDirs(dirs),
            context: Some("failed to create directories".to_owned()),
        },
    );
    steps.push(planned_exec(cmd, Some(container_out_dir), "failed to archive the install tree"));
    steps.push(
        PlannedStep {
            action: Action::Download { from: dir, to: output_dir.to_owned() },
            context: Some("failed to download files".to_owned()),
        },
    );
    assert(steps.deep_view() == gzip_steps(meta@, container_out_dir@, output_dir@));
    PlannedBuild::new(BuildTarget::Gzip, steps, join_path(output_dir, file.as_str()))
}

/// The assembly of a package of one of the three formats.
#[derive(Debug, PartialEq, Eq)]
pub enum PackageBuild {
    Rpm(RpmBuild),
    Deb(PlannedBuild),
    Gzip(PlannedBuild),
}

pub enum PackageBuildView {
    Rpm(RpmBuildView),
    Deb(PlannedBuildView),
    Gzip(PlannedBuildView),
}

impl View for PackageBuild {
    type V = PackageBuildView;

    open spec fn view(&self) -> PackageBuildView {
        match self {
            PackageBuild::Rpm(b) => PackageBuildView::Rpm(b@),
            PackageBuild::Deb(b) => PackageBuildView::Deb(b@),
            PackageBuild::Gzip(b) => PackageBuildView::Gzip(b@),
        }
    }
}

impl PackageBuildView {
    /// An assembly at its start, for the package of `meta` in the format
    /// `target`, built on `image`.
    pub open spec fn start(
        meta: MetadataView,
        target: BuildTarget,
        image: Seq<char>,
        container_out_dir: Seq<char>,
        output_dir: Seq<char>,
    ) -> PackageBuildView {
        match target {
            BuildTarget::Rpm => PackageBuildView::Rpm(
                RpmBuildView::start(meta, image, container_out_dir, output_dir),
            ),
            BuildTarget::Deb => PackageBuildView::Deb(
                PlannedBuildView::start(
                    BuildTarget::Deb,
                    deb_steps(meta, image, container_out_dir, output_dir),
                    joined(output_dir, deb_file_name(meta)),
                ),
            ),
            BuildTarget::Gzip => PackageBuildView::Gzip(
                PlannedBuildView::start(
                    BuildTarget::Gzip,
                    gzip_steps(meta, container_out_dir, output_dir),
                    joined(output_dir, gzip_file_name(meta)),
                ),
            ),
        }
    }

    /// The failure of the assembly, once a step has failed.
    pub open spec fn failure(self) -> Option<PkgerErrorView> {
        match self {
            PackageBuildView::Rpm(b) => b.failure,
            PackageBuildView::Deb(b) => b.failure,
            PackageBuildView::Gzip(b) => b.failure,
        }
    }

    pub open spec fn action(self) -> ActionView {
        match self {
            PackageBuildView::Rpm(b) => b.action(),
            PackageBuildView::Deb(b) => b.action(),
            PackageBuildView::Gzip(b) => b.action(),
        }
    }

    pub open spec fn after(self, event: EventView) -> PackageBuildView {
        match self {
            PackageBuildView::Rpm(b) => PackageBuildView::Rpm(b.after(event)),
            PackageBuildView::Deb(b) => PackageBuildView::Deb(b.after(event)),
            PackageBuildView::Gzip(b) => PackageBuildView::Gzip(b.after(event)),
        }
    }
}

/// Starts the assembly of the package of `meta` in the format `target`.
/// The image of `image_state` decides which of the recipe's dependencies
/// the package declares. The install tree is taken from `container_out_dir`
/// inside the container, and the package is brought to `output_dir` on the
/// host.
pub fn assemble(
    meta: &Metadata,
    target: BuildTarget,
    image_state: &ImageState,
    container_out_dir: &str,
    output_dir: &str,
) -> (r: PackageBuild)
    ensures
        r@ == PackageBuildView::start(
            meta@,
            target,
            image_state@.image,
            container_out_dir@,
            output_dir@,
        ),
{
    let image = image_state.image.as_str();
    match target {
        BuildTarget::Rpm => PackageBuild::Rpm(
            RpmBuild::new(meta, image, container_out_dir, output_dir),
        ),
        BuildTarget::Deb => PackageBuild::Deb(deb_build(meta, image, container_out_dir, output_dir)),
        BuildTarget::Gzip => PackageBuild::Gzip(gzip_build(meta, container_out_dir, output_dir)),
    }
}

impl BuildContext {
    /// Creates a final RPM package and saves it to `output_dir`: starts
    /// the assembly that does so, from the install tree of this job.
    pub fn build_rpm(&self, recipe: &Recipe, image_state: &ImageState, output_dir: &str) -> (r:
        RpmBuild)
        ensures
            r@ == RpmBuildView::start(
                recipe@.metadata,
                image_state@.image,
                self@.container_out_dir,
                output_dir@,
            ),
    {
        RpmBuild::new(
            &recipe.metadata,
            image_state.image.as_str(),
            self.container_out_dir.as_str(),
            output_dir,
        )
    }

    /// Starts the assembly of the package of this job, in the format of
    /// its target.
    pub fn assemble(&self, recipe: &Recipe, image_state: &ImageState, output_dir: &str) -> (r:
        PackageBuild)
        ensures
            r@ == PackageBuildView::start(
                recipe@.metadata,
                self@.target.build_target,
                image_state@.image,
                self@.container_out_dir,
                output_dir@,
            ),
    {
        assemble(
            &recipe.metadata,
            self.target.build_target,
            image_state,
            self.container_out_dir.as_str(),
            output_dir,
        )
    }
}

impl PackageBuild {
    /// What the caller has to do next.
    pub fn action(&self) -> (r: Action)
        ensures
            r@ == self@.action(),
    {
        match self {
            PackageBuild::Rpm(b) => b.action(),
            PackageBuild::Deb(b) => b.action(),
            PackageBuild::Gzip(b) => b.action(),
        }
    }

    /// Takes in what came of the action that `action` handed out.
    pub fn advance(self, event: Event) -> (r: PackageBuild)
        ensures
            r@ == self@.after(event@),
    {
        match self {
            PackageBuild::Rpm(b) => {
                let mut b = b;
                b.advance(event);
                PackageBuild::Rpm(b)
            },
            PackageBuild::Deb(b) => {
                let mut b = b;
                b.advance(event);
                PackageBuild::Deb(b)
            },
            PackageBuild::Gzip(b) => {
                let mut b = b;
                b.advance(event);
                PackageBuild::Gzip(b)
            },
        }
    }
}

/// Once a step has failed, the assembly fails and stays failed: no later
/// step is handed out.
pub proof fn lemma_failed_assembly_stays(build: PackageBuildView, event: EventView)
    requires
        build.failure() is Some,
    ensures
        build.action() == ActionView::Fail(build.failure().unwrap()),
        build.after(event) == build,
{
}

} // verus!
