//! What the core asks of a container session and what it is told back.
//!
//! The core never talks to a container runtime itself. It hands out
//! `Action`s, the caller performs them inside the session of the job, and
//! reports each outcome as an `Event`.

use crate::error::{PkgerError, PkgerErrorView, Phase};
use crate::text::{copy_text, copy_texts};
use vstd::prelude::*;

verus! {

/// The shell a command runs in where neither the phase nor the caller names
/// one.
pub open spec fn default_shell() -> Seq<char> {
    "/bin/sh"@
}

/// The options of one command execution.
#[derive(Clone, Debug, PartialEq, Eq)]
pub struct ExecOpts {
    pub cmd: String,
    pub working_dir: Option<String>,
    pub shell: Option<String>,
    pub user: Option<String>,
    pub env: Vec<(String, String)>,
}

pub struct ExecOptsView {
    pub cmd: Seq<char>,
    pub working_dir: Option<Seq<char>>,
    pub shell: Option<Seq<char>>,
    pub user: Option<Seq<char>>,
    pub env: Seq<(Seq<char>, Seq<char>)>,
}

impl View for ExecOpts {
    type V = ExecOptsView;

    open spec fn view(&self) -> ExecOptsView {
        ExecOptsView {
            cmd: self.cmd@,
            working_dir: self.working_dir.deep_view(),
            shell: self.shell.deep_view(),
            user: self.user.deep_view(),
            env: self.env.deep_view(),
        }
    }
}

impl DeepView for ExecOpts {
    type V = ExecOptsView;

    open spec fn deep_view(&self) -> ExecOptsView {
        self@
    }
}

impl ExecOptsView {
    /// The plain command: no directory, shell, user or environment set.
    pub open spec fn plain(cmd: Seq<char>) -> ExecOptsView {
        ExecOptsView { cmd, working_dir: None, shell: None, user: None, env: Seq::empty() }
    }

    /// The command run from `dir`.
    pub open spec fn within(cmd: Seq<char>, dir: Seq<char>) -> ExecOptsView {
        ExecOptsView { cmd, working_dir: Some(dir), shell: None, user: None, env: Seq::empty() }
    }

    /// The shell the command runs in.
    pub open spec fn effective_shell(self) -> Seq<char> {
        match self.shell {
            Some(shell) => shell,
            None => default_shell(),
        }
    }
}

impl ExecOpts {
    /// Options that run `cmd` with everything else left at its default.
    pub fn new(cmd: &str) -> (r: ExecOpts)
        ensures
            r@ == ExecOptsView::plain(cmd@),
    {
        let r = ExecOpts {
            cmd: cmd.to_owned(),
            working_dir: None,
            shell: None,
            user: None,
            env: Vec::new(),
        };
        assert(r.env.deep_view() == Seq::<(Seq<char>, Seq<char>)>::empty());
        r
    }

    pub fn cmd(self, cmd: &str) -> (r: ExecOpts)
        ensures
            r@ == (ExecOptsView { cmd: cmd@, ..self@ }),
    {
        ExecOpts { cmd: cmd.to_owned(), ..self }
    }

    pub fn working_dir(self, dir: &str) -> (r: ExecOpts)
        ensures
            r@ == (ExecOptsView { working_dir: Some(dir@), ..self@ }),
    {
        ExecOpts { working_dir: Some(dir.to_owned()), ..self }
    }

    pub fn shell(self, shell: &str) -> (r: ExecOpts)
        ensures
            r@ == (ExecOptsView { shell: Some(shell@), ..self@ }),
    {
        ExecOpts { shell: Some(shell.to_owned()), ..self }
    }

    pub fn user(self, user: &str) -> (r: ExecOpts)
        ensures
            r@ == (ExecOptsView { user: Some(user@), ..self@ }),
    {
        ExecOpts { user: Some(user.to_owned()), ..self }
    }

    /// The shell the command runs in: the one set, else `/bin/sh`.
    pub fn effective_shell(&self) -> (r: &str)
        ensures
            r@ == self@.effective_shell(),
    {
        match &self.shell {
            Some(shell) => shell.as_str(),
            None => "/bin/sh",
        }
    }
}

/// A copy of `opts`.
pub fn copy_opts(opts: &ExecOpts) -> (r: ExecOpts)
    ensures
        r@ == opts@,
{
    let mut env: Vec<(String, String)> = Vec::new();
    let mut i: usize = 0;
    while i < opts.env.len()
        invariant
            i <= opts.env@.len(),
            env.deep_view() == opts.env.deep_view().take(i as int),
        decreases opts.env@.len() - i,
    {
        let ghost before = env.deep_view();
        env.push((opts.env[i].0.clone(), opts.env[i].1.clone()));
        assert(env.deep_view() == before.push((opts.env@[i as int].0@, opts.env@[i as int].1@)));
        i += 1;
    }
    assert(opts.env.deep_view().take(opts.env@.len() as int) == opts.env.deep_view());
    ExecOpts {
        cmd: opts.cmd.clone(),
        working_dir: copy_text(&opts.working_dir),
        shell: copy_text(&opts.shell),
        user: copy_text(&opts.user),
        env,
    }
}

/// A copy of `e`.
pub fn copy_error(e: &PkgerError) -> (r: PkgerError)
    ensures
        r@ == e@,
{
    match e {
        PkgerError::RecipeInvalid(fault) => PkgerError::RecipeInvalid(*fault),
        PkgerError::StateFileCorrupt => PkgerError::StateFileCorrupt,
        PkgerError::ImageBuildFailed { image, cause } => PkgerError::ImageBuildFailed {
            image: image.clone(),
            cause: cause.clone(),
        },
        PkgerError::OsDetectionFailed { image } => PkgerError::OsDetectionFailed { image: image.clone() },
        PkgerError::DependencyInstallFailed {
            image,
            package_manager,
            cause,
        } => PkgerError::DependencyInstallFailed {
            image: image.clone(),
            package_manager: package_manager.clone(),
            cause: cause.clone(),
        },
        PkgerError::ContainerStartFailed { image } => PkgerError::ContainerStartFailed {
            image: image.clone(),
        },
        PkgerError::ContainerExecFailed { cmd, cause } => PkgerError::ContainerExecFailed {
            cmd: cmd.clone(),
            cause: cause.clone(),
        },
        PkgerError::ExecTimeout { cmd } => PkgerError::ExecTimeout { cmd: cmd.clone() },
        PkgerError::BuildStepFailed { phase, cmd, exit_code, stderr } => PkgerError::BuildStepFailed {
            phase: *phase,
            cmd: cmd.clone(),
            exit_code: *exit_code,
            stderr: copy_texts(stderr),
        },
        PkgerError::PackageAssemblyFailed { format, cause } => PkgerError::PackageAssemblyFailed {
            format: *format,
            cause: cause.clone(),
        },
        PkgerError::IoFailed { path, cause } => PkgerError::IoFailed {
            path: path.clone(),
            cause: cause.clone(),
        },
    }
}

/// What a command left behind: its exit code and the lines it wrote.
#[derive(Clone, Debug, PartialEq, Eq)]
pub struct ExecOutput {
    pub exit_code: u64,
    pub stdout: Vec<String>,
    pub stderr: Vec<String>,
}

pub struct ExecOutputView {
    pub exit_code: u64,
    pub stdout: Seq<Seq<char>>,
    pub stderr: Seq<Seq<char>>,
}

impl View for ExecOutput {
    type V = ExecOutputView;

    open spec fn view(&self) -> ExecOutputView {
        ExecOutputView {
            exit_code: self.exit_code,
            stdout: self.stdout.deep_view(),
            stderr: self.stderr.deep_view(),
        }
    }
}

impl DeepView for ExecOutput {
    type V = ExecOutputView;

    open spec fn deep_view(&self) -> ExecOutputView {
        self@
    }
}

impl ExecOutputView {
    /// A command succeeded when it exited with zero.
    pub open spec fn succeeded(self) -> bool {
        self.exit_code == 0
    }
}

impl ExecOutput {
    pub fn succeeded(&self) -> (r: bool)
        ensures
            r == self@.succeeded(),
    {
        self.exit_code == 0
    }
}

/// The view of what a caller reports of one command: the output of the
/// command, or the session's error where it could not run it.
pub open spec fn outcome_view(outcome: Result<ExecOutput, PkgerError>) -> Result<
    ExecOutputView,
    PkgerErrorView,
> {
    match outcome {
        Ok(output) => Ok(output@),
        Err(e) => Err(e@),
    }
}

/// An execution that counts an exit code other than zero as a failed step.
/// The session's own error is passed on as it is.
pub open spec fn checked(
    phase: Option<Phase>,
    cmd: Seq<char>,
    outcome: Result<ExecOutputView, PkgerErrorView>,
) -> Result<ExecOutputView, PkgerErrorView> {
    match outcome {
        Err(e) => Err(e),
        Ok(output) => if output.succeeded() {
            Ok(output)
        } else {
            Err(
                PkgerErrorView::BuildStepFailed {
                    phase,
                    cmd,
                    exit_code: output.exit_code,
                    stderr: output.stderr,
                },
            )
        },
    }
}

/// Judges the outcome of the command `cmd`: an output with an exit code
/// other than zero becomes a failed build step.
pub fn checked_exec(phase: Option<Phase>, cmd: &str, outcome: Result<ExecOutput, PkgerError>) -> (r:
    Result<ExecOutput, PkgerError>)
    ensures
        outcome_view(r) == checked(phase, cmd@, outcome_view(outcome)),
{
    match outcome {
        Err(e) => Err(e),
        Ok(output) => {
            if output.exit_code == 0 {
                Ok(output)
            } else {
                Err(
                    PkgerError::BuildStepFailed {
                        phase,
                        cmd: cmd.to_owned(),
                        exit_code: output.exit_code,
                        stderr: output.stderr,
                    },
                )
            }
        },
    }
}

/// What the package assembler asks of the session.
#[derive(Clone, Debug, PartialEq, Eq)]
pub enum Action {
    /// Make sure these directories exist inside the container.
    CreateDirs(Vec<String>),
    /// Execute a command.
    Exec(ExecOpts),
    /// Put an archive at `path` inside the container that holds one file,
    /// named `entry`, with the given content.
    Upload { path: String, entry: String, content: String },
    /// Bring every regular file of the directory `from` inside the
    /// container to the directory `to` on the host.
    Download { from: String, to: String },
    /// The package is assembled; `artifact` is where it lies on the host.
    Finish { artifact: String },
    /// The assembly has failed; nothing more is to be done.
    Fail(PkgerError),
}

pub enum ActionView {
    CreateDirs(Seq<Seq<char>>),
    Exec(ExecOptsView),
    Upload { path: Seq<char>, entry: Seq<char>, content: Seq<char> },
    Download { from: Seq<char>, to: Seq<char> },
    Finish { artifact: Seq<char> },
    Fail(PkgerErrorView),
}

impl View for Action {
    type V = ActionView;

    open spec fn view(&self) -> ActionView {
        match self {
            Action::CreateDirs(paths) => ActionView::CreateDirs(paths.deep_view()),
            Action::Exec(opts) => ActionView::Exec(opts@),
            Action::Upload { path, entry, content } => ActionView::Upload {
                path: path@,
                entry: entry@,
                content: content@,
            },
            Action::Download { from, to } => ActionView::Download { from: from@, to: to@ },
            Action::Finish { artifact } => ActionView::Finish { artifact: artifact@ },
            Action::Fail(e) => ActionView::Fail(e@),
        }
    }
}

/// A copy of `action`.
pub fn copy_action(action: &Action) -> (r: Action)
    ensures
        r@ == action@,
{
    match action {
        Action::CreateDirs(paths) => Action::CreateDirs(copy_texts(paths)),
        Action::Exec(opts) => Action::Exec(copy_opts(opts)),
        Action::Upload { path, entry, content } => Action::Upload {
            path: path.clone(),
            entry: entry.clone(),
            content: content.clone(),
        },
        Action::Download { from, to } => Action::Download { from: from.clone(), to: to.clone() },
        Action::Finish { artifact } => Action::Finish { artifact: artifact.clone() },
        Action::Fail(e) => Action::Fail(copy_error(e)),
    }
}

impl ActionView {
    /// The command of an action that executes one; empty for any other.
    pub open spec fn command(self) -> Seq<char> {
        match self {
            ActionView::Exec(opts) => opts.cmd,
            _ => Seq::empty(),
        }
    }
}

impl Action {
    /// The command of an action that executes one; empty for any other.
    pub fn command(&self) -> (r: String)
        ensures
            r@ == self@.command(),
    {
        match self {
            Action::Exec(opts) => opts.cmd.clone(),
            _ => String::new(),
        }
    }
}

/// What came of an action.
#[derive(Clone, Debug, PartialEq, Eq)]
pub enum Event {
    /// The action was performed and left nothing to report.
    Done,
    /// The command ran and left this output.
    Output(ExecOutput),
    /// The session could not perform the action.
    Failed(PkgerError),
}

pub enum EventView {
    Done,
    Output(ExecOutputView),
    Failed(PkgerErrorView),
}

impl View for Event {
    type V = EventView;

    open spec fn view(&self) -> EventView {
        match self {
            Event::Done => EventView::Done,
            Event::Output(output) => EventView::Output(output@),
            Event::Failed(e) => EventView::Failed(e@),
        }
    }
}

impl EventView {
    /// The failure an event amounts to after the command `cmd`: the
    /// session's error, or a failed step for an exit code other than zero.
    pub open spec fn failure(self, cmd: Seq<char>) -> Option<PkgerErrorView> {
        match self {
            EventView::Done => None,
            EventView::Output(output) => match checked(None, cmd, Ok(output)) {
                Err(e) => Some(e),
                Ok(_) => None,
            },
            EventView::Failed(e) => Some(e),
        }
    }

    /// The lines the command wrote to its standard output; none for an
    /// event without an output.
    pub open spec fn stdout(self) -> Seq<Seq<char>> {
        match self {
            EventView::Output(output) => output.stdout,
            _ => Seq::empty(),
        }
    }
}

impl Event {
    /// Judges an event that follows the command `cmd`: the lines of its
    /// standard output where the command succeeded, the failure otherwise.
    pub fn settle(self, cmd: &str) -> (r: Result<Vec<String>, PkgerError>)
        ensures
            match r {
                Ok(lines) => self@.failure(cmd@) is None && lines.deep_view() == self@.stdout(),
                Err(e) => self@.failure(cmd@) == Some(e@),
            },
    {
        match self {
            Event::Done => {
                let none: Vec<String> = Vec::new();
                Ok(none)
            },
            Event::Output(output) => match checked_exec(None, cmd, Ok(output)) {
                Ok(output) => Ok(output.stdout),
                Err(e) => Err(e),
            },
            Event::Failed(e) => Err(e),
        }
    }
}

} // verus!
