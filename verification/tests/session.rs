use pkger::error::{Phase, PkgerError, RecipeFault};
use pkger::session::{checked_exec, copy_error, copy_opts, Event, ExecOpts, ExecOutput};
use pkger::target::BuildTarget;

fn output(code: u64, stdout: &[&str], stderr: &[&str]) -> ExecOutput {
    ExecOutput {
        exit_code: code,
        stdout: stdout.iter().map(|s| s.to_string()).collect(),
        stderr: stderr.iter().map(|s| s.to_string()).collect(),
    }
}

#[test]
fn exec_opts_are_built_step_by_step() {
    let opts = ExecOpts::new("ls").working_dir("/tmp").shell("/bin/bash").user("root");
    assert_eq!(
        opts,
        ExecOpts {
            cmd: "ls".to_string(),
            working_dir: Some("/tmp".to_string()),
            shell: Some("/bin/bash".to_string()),
            user: Some("root".to_string()),
            env: vec![],
        }
    );
    assert_eq!(opts.effective_shell(), "/bin/bash");
    assert_eq!(ExecOpts::new("ls").effective_shell(), "/bin/sh");
    assert_eq!(ExecOpts::new("ls").cmd("pwd").cmd, "pwd");
    let mut with_env = opts.clone();
    with_env.env.push(("A".to_string(), "1".to_string()));
    assert_eq!(copy_opts(&with_env), with_env);
}

#[test]
fn zero_exit_is_a_success() {
    let out = output(0, &["fine"], &["warning"]);
    assert!(out.succeeded());
    assert_eq!(checked_exec(None, "true", Ok(out.clone())), Ok(out));
}

#[test]
fn nonzero_exit_is_a_failed_step() {
    let out = output(3, &["partial"], &["boom", "bang"]);
    assert!(!out.succeeded());
    assert_eq!(
        checked_exec(Some(Phase::Install), "make install", Ok(out)),
        Err(PkgerError::BuildStepFailed {
            phase: Some(Phase::Install),
            cmd: "make install".to_string(),
            exit_code: 3,
            stderr: vec!["boom".to_string(), "bang".to_string()],
        })
    );
}

#[test]
fn session_errors_pass_through() {
    let e = PkgerError::ContainerExecFailed { cmd: "ls".to_string(), cause: "gone".to_string() };
    assert_eq!(checked_exec(None, "ls", Err(e.clone())), Err(e));
}

#[test]
fn events_are_settled() {
    assert_eq!(Event::Done.settle("x"), Ok(vec![]));
    assert_eq!(
        Event::Output(output(0, &["a", "b"], &[])).settle("x"),
        Ok(vec!["a".to_string(), "b".to_string()])
    );
    assert_eq!(
        Event::Output(output(1, &["a"], &["e"])).settle("x"),
        Err(PkgerError::BuildStepFailed {
            phase: None,
            cmd: "x".to_string(),
            exit_code: 1,
            stderr: vec!["e".to_string()],
        })
    );
    let timeout = PkgerError::ExecTimeout { cmd: "x".to_string() };
    assert_eq!(Event::Failed(timeout.clone()).settle("x"), Err(timeout));
}

#[test]
fn every_error_has_a_message() {
    let cases = [
        (PkgerError::RecipeInvalid(RecipeFault::EmptyName), "invalid recipe: the name is empty"),
        (PkgerError::RecipeInvalid(RecipeFault::Git), "invalid recipe: the git source is malformed"),
        (PkgerError::StateFileCorrupt, "the state file is corrupt"),
        (
            PkgerError::ImageBuildFailed { image: "centos".to_string(), cause: "no space".to_string() },
            "failed to build image `centos` - no space",
        ),
        (
            PkgerError::OsDetectionFailed { image: "centos".to_string() },
            "failed to detect the os of image `centos`",
        ),
        (
            PkgerError::DependencyInstallFailed {
                image: "centos".to_string(),
                package_manager: "dnf".to_string(),
                cause: "no network".to_string(),
            },
            "failed to install dependencies on image `centos` with dnf - no network",
        ),
        (
            PkgerError::ContainerStartFailed { image: "centos".to_string() },
            "failed to start a container from image `centos`",
        ),
        (
            PkgerError::ContainerExecFailed { cmd: "ls".to_string(), cause: "gone".to_string() },
            "failed to execute `ls` - gone",
        ),
        (PkgerError::ExecTimeout { cmd: "sleep 100".to_string() }, "command `sleep 100` timed out"),
        (
            PkgerError::BuildStepFailed {
                phase: Some(Phase::Build),
                cmd: "make".to_string(),
                exit_code: 2,
                stderr: vec!["one".to_string(), "two".to_string()],
            },
            "command `make` failed with exit code 2\none\ntwo",
        ),
        (
            PkgerError::BuildStepFailed {
                phase: None,
                cmd: "make".to_string(),
                exit_code: 127,
                stderr: vec![],
            },
            "command `make` failed with exit code 127\n",
        ),
        (
            PkgerError::PackageAssemblyFailed {
                format: BuildTarget::Rpm,
                cause: "rpmbuild missing".to_string(),
            },
            "failed to assemble rpm package - rpmbuild missing",
        ),
        (
            PkgerError::IoFailed { path: ".pkger.state".to_string(), cause: "denied".to_string() },
            ".pkger.state: denied",
        ),
    ];
    for (error, message) in cases {
        assert_eq!(error.message(), message);
        assert_eq!(copy_error(&error), error);
    }
}

#[test]
fn names_of_phases_and_formats() {
    assert_eq!(Phase::Configure.as_str(), "configure");
    assert_eq!(Phase::Build.as_str(), "build");
    assert_eq!(Phase::Install.as_str(), "install");
    for target in [BuildTarget::Rpm, BuildTarget::Deb, BuildTarget::Gzip] {
        assert_eq!(BuildTarget::parse(target.as_str()), Some(target));
    }
    assert_eq!(BuildTarget::parse("rpm"), Some(BuildTarget::Rpm));
    assert_eq!(BuildTarget::parse("Rpm"), None);
    assert_eq!(BuildTarget::parse(""), None);
    assert_eq!(BuildTarget::parse("pkg"), None);
}
