//! The failures the core reports.

use crate::target::BuildTarget;
use crate::text::{decimal, join, joined_with, push_decimal};
use vstd::prelude::*;
use vstd::string::*;

verus! {

/// One of the three script phases, in the order in which they run.
#[derive(Clone, Copy, Debug, PartialEq, Eq, Hash, Structural)]
pub enum Phase {
    Configure,
    Build,
    Install,
}

impl Phase {
    pub open spec fn name(self) -> Seq<char> {
        match self {
            Phase::Configure => "configure"@,
            Phase::Build => "build"@,
            Phase::Install => "install"@,
        }
    }

    pub fn as_str(&self) -> (r: &'static str)
        ensures
            r@ == self.name(),
    {
        match self {
            Phase::Configure => "configure",
            Phase::Build => "build",
            Phase::Install => "install",
        }
    }
}

/// What is wrong with a recipe that cannot be loaded.
#[derive(Clone, Copy, Debug, PartialEq, Eq, Hash, Structural)]
pub enum RecipeFault {
    /// The name is empty.
    EmptyName,
    /// The version is empty.
    EmptyVersion,
    /// The list of images is empty.
    NoImages,
    /// An entry of the image list is no table with a string `name`, or its
    /// `target` or `os` is not what it has to be.
    Image,
    /// The git source is neither a string nor a table with a string `url`.
    Git,
    /// A dependency declaration is neither a list of strings nor a table of
    /// such lists.
    BuildDepends,
    Depends,
    Conflicts,
    Provides,
    Obsoletes,
    /// A step names a format that is none of `rpm`, `deb` and `gzip`.
    StepTarget,
}

/// Every failure the core surfaces.
#[derive(Clone, Debug, PartialEq, Eq)]
pub enum PkgerError {
    RecipeInvalid(RecipeFault),
    StateFileCorrupt,
    ImageBuildFailed { image: String, cause: String },
    OsDetectionFailed { image: String },
    DependencyInstallFailed { image: String, package_manager: String, cause: String },
    ContainerStartFailed { image: String },
    ContainerExecFailed { cmd: String, cause: String },
    ExecTimeout { cmd: String },
    /// A command exited with a code other than zero. `phase` is the script
    /// phase the command belongs to; a command of the package assembler
    /// belongs to none.
    BuildStepFailed { phase: Option<Phase>, cmd: String, exit_code: u64, stderr: Vec<String> },
    PackageAssemblyFailed { format: BuildTarget, cause: String },
    IoFailed { path: String, cause: String },
}

pub enum PkgerErrorView {
    RecipeInvalid(RecipeFault),
    StateFileCorrupt,
    ImageBuildFailed { image: Seq<char>, cause: Seq<char> },
    OsDetectionFailed { image: Seq<char> },
    DependencyInstallFailed { image: Seq<char>, package_manager: Seq<char>, cause: Seq<char> },
    ContainerStartFailed { image: Seq<char> },
    ContainerExecFailed { cmd: Seq<char>, cause: Seq<char> },
    ExecTimeout { cmd: Seq<char> },
    BuildStepFailed {
        phase: Option<Phase>,
        cmd: Seq<char>,
        exit_code: u64,
        stderr: Seq<Seq<char>>,
    },
    PackageAssemblyFailed { format: BuildTarget, cause: Seq<char> },
    IoFailed { path: Seq<char>, cause: Seq<char> },
}

impl View for PkgerError {
    type V = PkgerErrorView;

    open spec fn view(&self) -> PkgerErrorView {
        match self {
            PkgerError::RecipeInvalid(fault) => PkgerErrorView::RecipeInvalid(*fault),
            PkgerError::StateFileCorrupt => PkgerErrorView::StateFileCorrupt,
            PkgerError::ImageBuildFailed { image, cause } => PkgerErrorView::ImageBuildFailed {
                image: image@,
                cause: cause@,
            },
            PkgerError::OsDetectionFailed { image } => PkgerErrorView::OsDetectionFailed { image: image@ },
            PkgerError::DependencyInstallFailed {
                image,
                package_manager,
                cause,
            } => PkgerErrorView::DependencyInstallFailed {
                image: image@,
                package_manager: package_manager@,
                cause: cause@,
            },
            PkgerError::ContainerStartFailed { image } => PkgerErrorView::ContainerStartFailed {
                image: image@,
            },
            PkgerError::ContainerExecFailed { cmd, cause } => PkgerErrorView::ContainerExecFailed {
                cmd: cmd@,
                cause: cause@,
            },
            PkgerError::ExecTimeout { cmd } => PkgerErrorView::ExecTimeout { cmd: cmd@ },
            PkgerError::BuildStepFailed { phase, cmd, exit_code, stderr } => PkgerErrorView::BuildStepFailed {
                phase: *phase,
                cmd: cmd@,
                exit_code: *exit_code,
                stderr: stderr.deep_view(),
            },
            PkgerError::PackageAssemblyFailed { format, cause } => PkgerErrorView::PackageAssemblyFailed {
                format: *format,
                cause: cause@,
            },
            PkgerError::IoFailed { path, cause } => PkgerErrorView::IoFailed { path: path@, cause: cause@ },
        }
    }
}

impl DeepView for PkgerError {
    type V = PkgerErrorView;

    open spec fn deep_view(&self) -> PkgerErrorView {
        self@
    }
}

impl RecipeFault {
    /// What the fault is, in words.
    pub open spec fn reason(self) -> Seq<char> {
        match self {
            RecipeFault::EmptyName => "the name is empty"@,
            RecipeFault::EmptyVersion => "the version is empty"@,
            RecipeFault::NoImages => "no image is listed"@,
            RecipeFault::Image => "an image entry is malformed"@,
            RecipeFault::Git => "the git source is malformed"@,
            RecipeFault::BuildDepends => "build_depends is malformed"@,
            RecipeFault::Depends => "depends is malformed"@,
            RecipeFault::Conflicts => "conflicts is malformed"@,
            RecipeFault::Provides => "provides is malformed"@,
            RecipeFault::Obsoletes => "obsoletes is malformed"@,
            RecipeFault::StepTarget => "a step names an unknown build target"@,
        }
    }

    pub fn as_str(&self) -> (r: &'static str)
        ensures
            r@ == self.reason(),
    {
        match self {
            RecipeFault::EmptyName => "the name is empty",
            RecipeFault::EmptyVersion => "the version is empty",
            RecipeFault::NoImages => "no image is listed",
            RecipeFault::Image => "an image entry is malformed",
            RecipeFault::Git => "the git source is malformed",
            RecipeFault::BuildDepends => "build_depends is malformed",
            RecipeFault::Depends => "depends is malformed",
            RecipeFault::Conflicts => "conflicts is malformed",
            RecipeFault::Provides => "provides is malformed",
            RecipeFault::Obsoletes => "obsoletes is malformed",
            RecipeFault::StepTarget => "a step names an unknown build target",
        }
    }
}

impl PkgerErrorView {
    /// The error in words. The lines a failed command wrote to its standard
    /// error follow its exit code, each on a line of its own.
    pub open spec fn message(self) -> Seq<char> {
        match self {
            PkgerErrorView::RecipeInvalid(fault) => "invalid recipe: "@ + fault.reason(),
            PkgerErrorView::StateFileCorrupt => "the state file is corrupt"@,
            PkgerErrorView::ImageBuildFailed { image, cause } => "failed to build image `"@ + image
                + "` - "@ + cause,
            PkgerErrorView::OsDetectionFailed { image } => "failed to detect the os of image `"@ + image
                + "`"@,
            PkgerErrorView::DependencyInstallFailed {
                image,
                package_manager,
                cause,
            } => "failed to install dependencies on image `"@ + image + "` with "@
                + package_manager + " - "@ + cause,
            PkgerErrorView::ContainerStartFailed { image } => "failed to start a container from image `"@
                + image + "`"@,
            PkgerErrorView::ContainerExecFailed { cmd, cause } => "failed to execute `"@ + cmd + "` - "@
                + cause,
            PkgerErrorView::ExecTimeout { cmd } => "command `"@ + cmd + "` timed out"@,
            PkgerErrorView::BuildStepFailed { phase, cmd, exit_code, stderr } => "command `"@ + cmd
                + "` failed with exit code "@ + decimal(exit_code as nat) + "\n"@ + joined_with(
                stderr,
                "\n"@,
            ),
            PkgerErrorView::PackageAssemblyFailed { format, cause } => "failed to assemble "@
                + format.name() + " package - "@ + cause,
            PkgerErrorView::IoFailed { path, cause } => path + ": "@ + cause,
        }
    }
}

impl PkgerError {
    /// The error in words.
    pub fn message(&self) -> (r: String)
        ensures
            r@ == self@.message(),
    {
        let mut r = String::new();
        match self {
            PkgerError::RecipeInvalid(fault) => {
                r.append("invalid recipe: ");
                r.append(fault.as_str());
            },
            PkgerError::StateFileCorrupt => {
                r.append("the state file is corrupt");
            },
            PkgerError::ImageBuildFailed { image, cause } => {
                r.append("failed to build image `");
                r.append(image.as_str());
                r.append("` - ");
                r.append(cause.as_str());
            },
            PkgerError::OsDetectionFailed { image } => {
                r.append("failed to detect the os of image `");
                r.append(image.as_str());
                r.append("`");
            },
            PkgerError::DependencyInstallFailed { image, package_manager, cause } => {
                r.append("failed to install dependencies on image `");
                r.append(image.as_str());
                r.append("` with ");
                r.append(package_manager.as_str());
                r.append(" - ");
                r.append(cause.as_str());
            },
            PkgerError::ContainerStartFailed { image } => {
                r.append("failed to start a container from image `");
                r.append(image.as_str());
                r.append("`");
            },
            PkgerError::ContainerExecFailed { cmd, cause } => {
                r.append("failed to execute `");
                r.append(cmd.as_str());
                r.append("` - ");
                r.append(cause.as_str());
            },
            PkgerError::ExecTimeout { cmd } => {
                r.append("command `");
                r.append(cmd.as_str());
                r.append("` timed out");
            },
            PkgerError::BuildStepFailed { phase, cmd, exit_code, stderr } => {
                r.append("command `");
                r.append(cmd.as_str());
                r.append("` failed with exit code ");
                push_decimal(&mut r, *exit_code);
                r.append("\n");
                let lines = join(stderr, "\n");
                r.append(lines.as_str());
            },
            PkgerError::PackageAssemblyFailed { format, cause } => {
                r.append("failed to assemble ");
                r.append(format.as_str());
                r.append(" package - ");
                r.append(cause.as_str());
            },
            PkgerError::IoFailed { path, cause } => {
                r.append(path.as_str());
                r.append(": ");
                r.append(cause.as_str());
            },
        }
        r
    }
}

} // verus!
