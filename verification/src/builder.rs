//! The image builder: gives a job the image it runs in, the cached one
//! where it can be used again and a new one otherwise.
//!
//! `ImageBuild` is the state of that work. It says what is to be asked of
//! the container runtime next and takes in the answer.

use crate::deps::{add_missing, extend_unique, lemma_extend_unique};
use crate::error::{PkgerError, PkgerErrorView};
use crate::image::{
    default_packages, default_packages_of, os_release_of, package_manager, package_manager_of,
    parse_os_release, required_packages, required_packages_of, PackageManager,
};
use crate::metadata::Metadata;
use crate::session::{copy_error, ExecOpts, ExecOptsView, ExecOutput, ExecOutputView};
use crate::state::{
    image_tag, tag_of, ImageState, ImageStateView, ImagesState, ImagesStateView, Timestamp,
};
use crate::target::{ImageTarget, Os, OsView, RecipeTarget, RecipeTargetView};
use crate::text::{concat_all, concat_strings, join, joined_with};
use vstd::prelude::*;
use vstd::string::*;

verus! {

/// What the image builder asks of the container runtime.
#[derive(Clone, Debug, PartialEq, Eq)]
pub enum BuilderAction {
    /// Tell whether the image with this id still exists.
    CheckImage { id: String },
    /// Build the base image for `image`: from the minimal default
    /// definition where `simple` is set, else from the definition that the
    /// user supplies for the image. The answer is the id of the image.
    BuildBase { image: String, simple: bool },
    /// Start a container from the image with this id. The commands that
    /// follow run in it, and it is what `Commit` commits.
    Start { image_id: String },
    /// Execute a command in the container.
    Exec(ExecOpts),
    /// Commit the container to an image with this tag. The answer is the
    /// id of the image.
    Commit { tag: String },
    /// Report what the runtime knows of the image with this id.
    Inspect { id: String },
    /// The cached image is used again; nothing is left to do.
    Reuse(ImageState),
    /// A new image has been built: store its state and use it.
    Store(ImageState),
    /// No image could be had; nothing more is to be done.
    Fail(PkgerError),
}

pub enum BuilderActionView {
    CheckImage { id: Seq<char> },
    BuildBase { image: Seq<char>, simple: bool },
    Start { image_id: Seq<char> },
    Exec(ExecOptsView),
    Commit { tag: Seq<char> },
    Inspect { id: Seq<char> },
    Reuse(ImageStateView),
    Store(ImageStateView),
    Fail(PkgerErrorView),
}

impl View for BuilderAction {
    type V = BuilderActionView;

    open spec fn view(&self) -> BuilderActionView {
        match self {
            BuilderAction::CheckImage { id } => BuilderActionView::CheckImage { id: id@ },
            BuilderAction::BuildBase { image, simple } => BuilderActionView::BuildBase {
                image: image@,
                simple: *simple,
            },
            BuilderAction::Start { image_id } => BuilderActionView::Start { image_id: image_id@ },
            BuilderAction::Exec(opts) => BuilderActionView::Exec(opts@),
            BuilderAction::Commit { tag } => BuilderActionView::Commit { tag: tag@ },
            BuilderAction::Inspect { id } => BuilderActionView::Inspect { id: id@ },
            BuilderAction::Reuse(state) => BuilderActionView::Reuse(state@),
            BuilderAction::Store(state) => BuilderActionView::Store(state@),
            BuilderAction::Fail(e) => BuilderActionView::Fail(e@),
        }
    }
}

/// What the container runtime answers.
#[derive(Clone, Debug, PartialEq, Eq)]
pub enum BuilderEvent {
    /// Whether the image exists.
    Exists(bool),
    /// The id of the image that was built or committed.
    Id(String),
    /// The container runs.
    Done,
    /// The command ran and left this output.
    Output(ExecOutput),
    /// What the runtime knows of the image.
    Details(String),
    /// The runtime could not do what it was asked.
    Failed(String),
}

pub enum BuilderEventView {
    Exists(bool),
    Id(Seq<char>),
    Done,
    Output(ExecOutputView),
    Details(Seq<char>),
    Failed(Seq<char>),
}

impl View for BuilderEvent {
    type V = BuilderEventView;

    open spec fn view(&self) -> BuilderEventView {
        match self {
            BuilderEvent::Exists(b) => BuilderEventView::Exists(*b),
            BuilderEvent::Id(id) => BuilderEventView::Id(id@),
            BuilderEvent::Done => BuilderEventView::Done,
            BuilderEvent::Output(output) => BuilderEventView::Output(output@),
            BuilderEvent::Details(details) => BuilderEventView::Details(details@),
            BuilderEvent::Failed(cause) => BuilderEventView::Failed(cause@),
        }
    }
}

impl BuilderEventView {
    /// Why a step failed that this event ends: the cause the runtime
    /// gives, or that the event is none the step could end with.
    pub open spec fn cause(self) -> Seq<char> {
        match self {
            BuilderEventView::Failed(cause) => cause,
            _ => "unexpected answer from the container runtime"@,
        }
    }
}

impl BuilderEvent {
    /// Why a step failed that this event ends.
    pub fn cause(&self) -> (r: String)
        ensures
            r@ == self@.cause(),
    {
        match self {
            BuilderEvent::Failed(cause) => cause.clone(),
            _ => "unexpected answer from the container runtime".to_owned(),
        }
    }
}

/// Where the work stands.
#[derive(Clone, Debug, PartialEq, Eq)]
pub enum BuildStage {
    /// The store has a state for the target: find out whether its image
    /// still exists.
    CheckImage { cached: ImageState },
    /// Build the base image.
    BuildBase,
    /// Start a container from the base image.
    Start { base: String },
    /// Find out which system runs in the container.
    DetectOs,
    /// Install the required packages.
    Install { os: Os, manager: PackageManager },
    /// Commit the container.
    Commit { os: Os },
    /// Ask what the runtime knows of the committed image.
    Inspect { os: Os, id: String },
    /// The image is there; `built` tells a new one from the cached one.
    Done { state: ImageState, built: bool },
    /// No image could be had.
    Failed(PkgerError),
}

pub enum BuildStageView {
    CheckImage { cached: ImageStateView },
    BuildBase,
    Start { base: Seq<char> },
    DetectOs,
    Install { os: OsView, manager: PackageManager },
    Commit { os: OsView },
    Inspect { os: OsView, id: Seq<char> },
    Done { state: ImageStateView, built: bool },
    Failed(PkgerErrorView),
}

impl View for BuildStage {
    type V = BuildStageView;

    open spec fn view(&self) -> BuildStageView {
        match self {
            BuildStage::CheckImage { cached } => BuildStageView::CheckImage { cached: cached@ },
            BuildStage::BuildBase => BuildStageView::BuildBase,
            BuildStage::Start { base } => BuildStageView::Start { base: base@ },
            BuildStage::DetectOs => BuildStageView::DetectOs,
            BuildStage::Install { os, manager } => BuildStageView::Install {
                os: os@,
                manager: *manager,
            },
            BuildStage::Commit { os } => BuildStageView::Commit { os: os@ },
            BuildStage::Inspect { os, id } => BuildStageView::Inspect { os: os@, id: id@ },
            BuildStage::Done { state, built } => BuildStageView::Done {
                state: state@,
                built: *built,
            },
            BuildStage::Failed(e) => BuildStageView::Failed(e@),
        }
    }
}

/// The work of getting the image of one job.
#[derive(Clone, Debug, PartialEq, Eq)]
pub struct ImageBuild {
    /// The key of the image in the store.
    pub key: RecipeTarget,
    /// The system inside the image, where the recipe declares it.
    pub declared_os: Option<Os>,
    /// The packages the image has to hold.
    pub required: Vec<String>,
    /// Whether images are made from the minimal default definition.
    pub simple: bool,
    /// When the work began; a new image carries it in its tag.
    pub now: Timestamp,
    pub stage: BuildStage,
}

pub struct ImageBuildView {
    pub key: RecipeTargetView,
    pub declared_os: Option<OsView>,
    pub required: Seq<Seq<char>>,
    pub simple: bool,
    pub now: Timestamp,
    pub stage: BuildStageView,
}

impl View for ImageBuild {
    type V = ImageBuildView;

    open spec fn view(&self) -> ImageBuildView {
        ImageBuildView {
            key: self.key@,
            declared_os: self.declared_os.deep_view(),
            required: self.required.deep_view(),
            simple: self.simple,
            now: self.now,
            stage: self.stage@,
        }
    }
}

/// The command that shows which system runs in a container.
pub open spec fn detect_os_cmd() -> Seq<char> {
    "cat /etc/os-release"@
}

/// Why packages cannot be installed on a system that is not known.
pub open spec fn no_manager() -> Seq<char> {
    "no package manager is known for the system of the image"@
}

impl ImageBuildView {
    /// The work at its start: with a cached state the first question is
    /// whether its image still exists, without one the image is built.
    pub open spec fn start(
        key: RecipeTargetView,
        declared_os: Option<OsView>,
        required: Seq<Seq<char>>,
        simple: bool,
        now: Timestamp,
        cached: Option<ImageStateView>,
    ) -> ImageBuildView {
        ImageBuildView {
            key,
            declared_os,
            required,
            simple,
            now,
            stage: match cached {
                Some(cached) => BuildStageView::CheckImage { cached },
                None => BuildStageView::BuildBase,
            },
        }
    }

    /// The tag of the image that is built.
    pub open spec fn tag(self) -> Seq<char> {
        tag_of(self.key.image, self.now)
    }

    /// What is to be done in this state.
    pub open spec fn action(self) -> BuilderActionView {
        match self.stage {
            BuildStageView::CheckImage { cached } => BuilderActionView::CheckImage {
                id: cached.id,
            },
            BuildStageView::BuildBase => BuilderActionView::BuildBase {
                image: self.key.image,
                simple: self.simple,
            },
            BuildStageView::Start { base } => BuilderActionView::Start { image_id: base },
            BuildStageView::DetectOs => BuilderActionView::Exec(
                ExecOptsView::plain(detect_os_cmd()),
            ),
            BuildStageView::Install { os, manager } => BuilderActionView::Exec(
                ExecOptsView::plain(manager.install_command(self.required)),
            ),
            BuildStageView::Commit { os } => BuilderActionView::Commit { tag: self.tag() },
            BuildStageView::Inspect { os, id } => BuilderActionView::Inspect { id },
            BuildStageView::Done { state, built } => if built {
                BuilderActionView::Store(state)
            } else {
                BuilderActionView::Reuse(state)
            },
            BuildStageView::Failed(e) => BuilderActionView::Fail(e),
        }
    }

    /// The failure to build the image.
    pub open spec fn build_failed(self, cause: Seq<char>) -> BuildStageView {
        BuildStageView::Failed(PkgerErrorView::ImageBuildFailed { image: self.key.image, cause })
    }

    /// The failure to install the required packages.
    pub open spec fn install_failed(self, manager: Seq<char>, cause: Seq<char>) -> BuildStageView {
        BuildStageView::Failed(
            PkgerErrorView::DependencyInstallFailed {
                image: self.key.image,
                package_manager: manager,
                cause,
            },
        )
    }

    /// The failure to find out which system runs in the image.
    pub open spec fn detection_failed(self) -> BuildStageView {
        BuildStageView::Failed(PkgerErrorView::OsDetectionFailed { image: self.key.image })
    }

    /// What follows once the system inside the image is known: the
    /// required packages are installed with the package manager of the
    /// system, and with none required the container is committed as it is.
    pub open spec fn provision(self, os: OsView) -> BuildStageView {
        if self.required.len() == 0 {
            BuildStageView::Commit { os }
        } else {
            match package_manager_of(os.distro) {
                Some(manager) => BuildStageView::Install { os, manager },
                None => self.install_failed(Seq::empty(), no_manager()),
            }
        }
    }

    /// The state of the image that has been built.
    pub open spec fn built(self, os: OsView, id: Seq<char>, details: Seq<char>) -> ImageStateView {
        ImageStateView {
            id,
            image: self.key.image,
            tag: self.tag(),
            os,
            timestamp: self.now,
            details,
            deps: extend_unique(Seq::empty(), self.required),
            simple: self.simple,
        }
    }

    /// Where the work stands after an answer of the runtime.
    pub open spec fn next(self, event: BuilderEventView) -> BuildStageView {
        match self.stage {
            BuildStageView::CheckImage { cached } => if cached.reusable(
                event == BuilderEventView::Exists(true),
                self.required.to_set(),
                self.simple,
            ) {
                BuildStageView::Done { state: cached, built: false }
            } else {
                BuildStageView::BuildBase
            },
            BuildStageView::BuildBase => match event {
                BuilderEventView::Id(base) => BuildStageView::Start { base },
                _ => self.build_failed(event.cause()),
            },
            BuildStageView::Start { base } => match event {
                BuilderEventView::Done => match self.declared_os {
                    Some(os) => self.provision(os),
                    None => BuildStageView::DetectOs,
                },
                _ => BuildStageView::Failed(
                    PkgerErrorView::ContainerStartFailed { image: self.key.image },
                ),
            },
            BuildStageView::DetectOs => match event {
                BuilderEventView::Output(output) => if output.succeeded() {
                    match os_release_of(concat_all(output.stdout)) {
                        Some(os) => self.provision(os),
                        None => self.detection_failed(),
                    }
                } else {
                    self.detection_failed()
                },
                _ => self.detection_failed(),
            },
            BuildStageView::Install { os, manager } => match event {
                BuilderEventView::Output(output) => if output.succeeded() {
                    BuildStageView::Commit { os }
                } else {
                    self.install_failed(manager.name(), joined_with(output.stderr, "\n"@))
                },
                _ => self.install_failed(manager.name(), event.cause()),
            },
            BuildStageView::Commit { os } => match event {
                BuilderEventView::Id(id) => BuildStageView::Inspect { os, id },
                _ => self.build_failed(event.cause()),
            },
            BuildStageView::Inspect { os, id } => match event {
                BuilderEventView::Details(details) => BuildStageView::Done {
                    state: self.built(os, id, details),
                    built: true,
                },
                _ => self.build_failed(event.cause()),
            },
            BuildStageView::Done { state, built } => self.stage,
            BuildStageView::Failed(e) => self.stage,
        }
    }

    /// The work after an answer of the runtime.
    pub open spec fn after(self, event: BuilderEventView) -> ImageBuildView {
        ImageBuildView { stage: self.next(event), ..self }
    }
}

/// The state of an image that has been built names no package twice.
pub proof fn lemma_built_names_packages_once(
    build: ImageBuildView,
    os: OsView,
    id: Seq<char>,
    details: Seq<char>,
)
    ensures
        build.built(os, id, details).deps.no_duplicates(),
{
    lemma_extend_unique(Seq::empty(), build.required);
}

/// With a cached state, the image is used again exactly when it still
/// exists, holds the packages required now, and was made in the way images
/// are made now. Anything else leads to a new image.
pub proof fn lemma_reuse_or_rebuild(build: ImageBuildView, event: BuilderEventView)
    requires
        build.stage is CheckImage,
    ensures
        ({
            let cached = build.stage->cached;
            let hit = cached.reusable(
                event == BuilderEventView::Exists(true),
                build.required.to_set(),
                build.simple,
            );
            &&& hit ==> build.after(event).action() == BuilderActionView::Reuse(cached)
            &&& !hit ==> build.after(event).action() == (BuilderActionView::BuildBase {
                image: build.key.image,
                simple: build.simple,
            })
        }),
{
}

/// A state is handed out to be stored only after the image has been built,
/// committed and inspected: a failure on the way stores nothing.
pub proof fn lemma_store_only_after_inspect(build: ImageBuildView, event: BuilderEventView)
    requires
        !(build.action() is Store),
        build.after(event).action() is Store,
    ensures
        build.stage is Inspect,
        event is Details,
{
}

impl ImageBuild {
    /// The work at its start. `cached` is what the store holds for the key.
    pub fn new(
        key: RecipeTarget,
        declared_os: Option<Os>,
        required: Vec<String>,
        simple: bool,
        now: Timestamp,
        cached: Option<ImageState>,
    ) -> (r: ImageBuild)
        ensures
            r@ == ImageBuildView::start(
                key@,
                declared_os.deep_view(),
                required.deep_view(),
                simple,
                now,
                cached.deep_view(),
            ),
    {
        let stage = match cached {
            Some(cached) => BuildStage::CheckImage { cached },
            None => BuildStage::BuildBase,
        };
        ImageBuild { key, declared_os, required, simple, now, stage }
    }

    /// What the caller has to do next.
    pub fn action(&self) -> (r: BuilderAction)
        ensures
            r@ == self@.action(),
    {
        match &self.stage {
            BuildStage::CheckImage { cached } => BuilderAction::CheckImage {
                id: cached.id.clone(),
            },
            BuildStage::BuildBase => BuilderAction::BuildBase {
                image: self.key.image.clone(),
                simple: self.simple,
            },
            BuildStage::Start { base } => BuilderAction::Start { image_id: base.clone() },
            BuildStage::DetectOs => BuilderAction::Exec(ExecOpts::new("cat /etc/os-release")),
            BuildStage::Install { os, manager } => {
                let cmd = manager.install(&self.required);
                BuilderAction::Exec(ExecOpts::new(cmd.as_str()))
            },
            BuildStage::Commit { os } => BuilderAction::Commit {
                tag: image_tag(self.key.image.as_str(), &self.now),
            },
            BuildStage::Inspect { os, id } => BuilderAction::Inspect { id: id.clone() },
            BuildStage::Done { state, built } => {
                if *built {
                    BuilderAction::Store(state.duplicate())
                } else {
                    BuilderAction::Reuse(state.duplicate())
                }
            },
            BuildStage::Failed(e) => BuilderAction::Fail(copy_error(e)),
        }
    }

    fn build_failed(&self, cause: String) -> (r: BuildStage)
        ensures
            r@ == self@.build_failed(cause@),
    {
        BuildStage::Failed(PkgerError::ImageBuildFailed { image: self.key.image.clone(), cause })
    }

    fn install_failed(&self, manager: &str, cause: String) -> (r: BuildStage)
        ensures
            r@ == self@.install_failed(manager@, cause@),
    {
        BuildStage::Failed(
            PkgerError::DependencyInstallFailed {
                image: self.key.image.clone(),
                package_manager: manager.to_owned(),
                cause,
            },
        )
    }

    fn detection_failed(&self) -> (r: BuildStage)
        ensures
            r@ == self@.detection_failed(),
    {
        BuildStage::Failed(PkgerError::OsDetectionFailed { image: self.key.image.clone() })
    }

    fn provision(&self, os: Os) -> (r: BuildStage)
        ensures
            r@ == self@.provision(os@),
    {
        if self.required.len() == 0 {
            BuildStage::Commit { os }
        } else {
            match package_manager(&os) {
                Some(manager) => BuildStage::Install { os, manager },
                None => {
                    let none = String::new();
                    self.install_failed(
                        none.as_str(),
                        "no package manager is known for the system of the image".to_owned(),
                    )
                },
            }
        }
    }

    fn next(&self, event: BuilderEvent) -> (r: BuildStage)
        ensures
            r@ == self@.next(event@),
    {
        match &self.stage {
            BuildStage::CheckImage { cached } => {
                let exists = match event {
                    BuilderEvent::Exists(exists) => exists,
                    _ => false,
                };
                if cached.is_reusable(exists, &self.required, self.simple) {
                    BuildStage::Done { state: cached.duplicate(), built: false }
                } else {
                    BuildStage::BuildBase
                }
            },
            BuildStage::BuildBase => match event {
                BuilderEvent::Id(base) => BuildStage::Start { base },
                _ => self.build_failed(event.cause()),
            },
            BuildStage::Start { base } => match event {
                BuilderEvent::Done => match &self.declared_os {
                    Some(os) => self.provision(os.duplicate()),
                    None => BuildStage::DetectOs,
                },
                _ => BuildStage::Failed(
                    PkgerError::ContainerStartFailed { image: self.key.image.clone() },
                ),
            },
            BuildStage::DetectOs => match event {
                BuilderEvent::Output(output) => {
                    if output.succeeded() {
                        let content = concat_strings(&output.stdout);
                        match parse_os_release(content.as_str()) {
                            Some(os) => self.provision(os),
                            None => self.detection_failed(),
                        }
                    } else {
                        self.detection_failed()
                    }
                },
                _ => self.detection_failed(),
            },
            BuildStage::Install { os, manager } => match event {
                BuilderEvent::Output(output) => {
                    if output.succeeded() {
                        BuildStage::Commit { os: os.duplicate() }
                    } else {
                        self.install_failed(manager.as_str(), join(&output.stderr, "\n"))
                    }
                },
                _ => self.install_failed(manager.as_str(), event.cause()),
            },
            BuildStage::Commit { os } => match event {
                BuilderEvent::Id(id) => BuildStage::Inspect { os: os.duplicate(), id },
                _ => self.build_failed(event.cause()),
            },
            BuildStage::Inspect { os, id } => match event {
                BuilderEvent::Details(details) => {
                    let mut deps: Vec<String> = Vec::new();
                    assert(deps.deep_view() == Seq::<Seq<char>>::empty());
                    add_missing(&mut deps, &self.required);
                    let state = ImageState {
                        id: id.clone(),
                        image: self.key.image.clone(),
                        tag: image_tag(self.key.image.as_str(), &self.now),
                        os: os.duplicate(),
                        timestamp: self.now,
                        details,
                        deps,
                        simple: self.simple,
                    };
                    BuildStage::Done { state, built: true }
                },
                _ => self.build_failed(event.cause()),
            },
            BuildStage::Done { state, built } => BuildStage::Done {
                state: state.duplicate(),
                built: *built,
            },
            BuildStage::Failed(e) => BuildStage::Failed(copy_error(e)),
        }
    }

    /// Takes in the answer to what `action` asked.
    pub fn advance(self, event: BuilderEvent) -> (r: ImageBuild)
        ensures
            r@ == self@.after(event@),
    {
        let stage = self.next(event);
        ImageBuild {
            key: self.key,
            declared_os: self.declared_os,
            required: self.required,
            simple: self.simple,
            now: self.now,
            stage,
        }
    }
}

/// Why no image is handed out while the work is still going on.
pub open spec fn unfinished() -> Seq<char> {
    "the image is not built yet"@
}

impl ImageBuildView {
    /// What the work ends with: the image once it is there, the failure
    /// once it has failed, and until then the failure that the image is
    /// not built yet.
    pub open spec fn outcome(self) -> Result<ImageStateView, PkgerErrorView> {
        match self.stage {
            BuildStageView::Done { state, built } => Ok(state),
            BuildStageView::Failed(e) => Err(e),
            _ => Err(PkgerErrorView::ImageBuildFailed { image: self.key.image, cause: unfinished() }),
        }
    }

    /// The store after the work has ended: a new image is stored under the
    /// key of the job, and nothing else changes the store.
    pub open spec fn stored(self, store: ImagesStateView) -> ImagesStateView {
        match self.stage {
            BuildStageView::Done { state, built } => if built {
                store.updated(self.key, state)
            } else {
                store
            },
            _ => store,
        }
    }
}

/// An image and a failure by their views.
pub open spec fn outcome_view(r: Result<ImageState, PkgerError>) -> Result<
    ImageStateView,
    PkgerErrorView,
> {
    match r {
        Ok(state) => Ok(state@),
        Err(e) => Err(e@),
    }
}

impl ImageBuild {
    /// Ends the work: hands out the image of the job and, if the image is
    /// new, stores its state. The store is left as it is by a cached image
    /// and by a failure.
    pub fn finish(self, store: &mut ImagesState) -> (r: Result<ImageState, PkgerError>)
        ensures
            outcome_view(r) == self@.outcome(),
            final(store)@ == self@.stored(old(store)@),
    {
        match self.stage {
            BuildStage::Done { state, built } => {
                if built {
                    store.update(&self.key, &state);
                }
                Ok(state)
            },
            BuildStage::Failed(e) => Err(e),
            _ => Err(
                PkgerError::ImageBuildFailed {
                    image: self.key.image,
                    cause: "the image is not built yet".to_owned(),
                },
            ),
        }
    }
}

/// Starts the work of getting the image of a recipe for a target. The
/// store is asked for a cached state; the image has to hold the default
/// packages of the format, unless the recipe skips them, and the build
/// dependencies that the recipe declares for the image. `simple` tells
/// whether images are made from the minimal default definition, and `now`
/// is the time a new image is dated with.
pub fn ensure_image(
    meta: &Metadata,
    target: &ImageTarget,
    store: &ImagesState,
    simple: bool,
    now: Timestamp,
) -> (r: ImageBuild)
    ensures
        ({
            let key = RecipeTargetView {
                recipe: meta@.name,
                image: target@.image,
                build_target: target@.build_target,
            };
            r@ == ImageBuildView::start(
                key,
                target@.os,
                required_packages_of(
                    meta@,
                    target@.image,
                    default_packages_of(target@.build_target),
                ),
                simple,
                now,
                if store@.images().contains_key(key) {
                    Some(store@.images()[key])
                } else {
                    None
                },
            )
        }),
{
    let key = RecipeTarget::new(meta.name.as_str(), target);
    let required = required_packages(
        meta,
        target.image.as_str(),
        &default_packages(target.build_target),
    );
    let cached = match store.find(&key) {
        Some(state) => Some(state.duplicate()),
        None => None,
    };
    let declared_os = match &target.os {
        Some(os) => Some(os.duplicate()),
        None => None,
    };
    ImageBuild::new(key, declared_os, required, simple, now, cached)
}

} // verus!
