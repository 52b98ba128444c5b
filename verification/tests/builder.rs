use pkger::builder::{ensure_image, BuildStage, BuilderAction, BuilderEvent, ImageBuild};
use pkger::deps::Dependencies;
use pkger::error::PkgerError;
use pkger::metadata::Metadata;
use pkger::session::{ExecOpts, ExecOutput};
use pkger::state::{ImageState, ImagesState, Timestamp};
use pkger::target::{BuildTarget, ImageTarget, Os, RecipeTarget};

fn strings(items: &[&str]) -> Vec<String> {
    items.iter().map(|s| s.to_string()).collect()
}

fn metadata(build_depends: &[&str], skip: bool) -> Metadata {
    Metadata {
        name: "hello".to_string(),
        version: "1.0".to_string(),
        description: "says hello".to_string(),
        license: "MIT".to_string(),
        images: vec![ImageTarget::new("centos", BuildTarget::Rpm, None)],
        maintainer: None,
        arch: None,
        source: None,
        git: None,
        skip_default_deps: Some(skip),
        exclude: None,
        group: None,
        build_depends: Some(Dependencies { default: strings(build_depends), per_image: vec![] }),
        depends: None,
        conflicts: None,
        provides: None,
        deb: None,
        rpm: None,
    }
}

const NOW: Timestamp = Timestamp { secs: 1609459200, nanos: 0 };

fn target() -> ImageTarget {
    ImageTarget::new("centos", BuildTarget::Rpm, None)
}

fn key() -> RecipeTarget {
    RecipeTarget::new("hello", &target())
}

fn output(code: u64, stdout: &[&str], stderr: &[&str]) -> BuilderEvent {
    BuilderEvent::Output(ExecOutput { exit_code: code, stdout: strings(stdout), stderr: strings(stderr) })
}

fn exec(cmd: &str) -> BuilderAction {
    BuilderAction::Exec(ExecOpts::new(cmd))
}

fn built_state(id: &str, deps: &[&str], details: &str) -> ImageState {
    ImageState {
        id: id.to_string(),
        image: "centos".to_string(),
        tag: "centos-1609459200".to_string(),
        os: Os::new("centos", Some("8")),
        timestamp: NOW,
        details: details.to_string(),
        deps: strings(deps),
        simple: true,
    }
}

const OS_RELEASE: &str = "NAME=\"CentOS Linux\"\nID=\"centos\"\nVERSION_ID=\"8\"\n";

#[test]
fn first_run_builds_the_image() {
    let store = ImagesState::new(".pkger.state");
    let mut build = ensure_image(&metadata(&["gcc"], false), &target(), &store, true, NOW);
    assert_eq!(build.required, strings(&["rpm-build", "util-linux", "gcc"]));
    assert_eq!(build.action(), BuilderAction::BuildBase { image: "centos".to_string(), simple: true });
    build = build.advance(BuilderEvent::Id("sha256:base".to_string()));
    assert_eq!(build.action(), BuilderAction::Start { image_id: "sha256:base".to_string() });
    build = build.advance(BuilderEvent::Done);
    assert_eq!(build.action(), exec("cat /etc/os-release"));
    build = build.advance(output(0, &[OS_RELEASE], &[]));
    assert_eq!(build.action(), exec("yum install -y rpm-build util-linux gcc"));
    build = build.advance(output(0, &["Complete!"], &[]));
    assert_eq!(build.action(), BuilderAction::Commit { tag: "centos-1609459200".to_string() });
    build = build.advance(BuilderEvent::Id("sha256:new".to_string()));
    assert_eq!(build.action(), BuilderAction::Inspect { id: "sha256:new".to_string() });
    build = build.advance(BuilderEvent::Details("{}".to_string()));
    let state = built_state("sha256:new", &["rpm-build", "util-linux", "gcc"], "{}");
    assert_eq!(build.action(), BuilderAction::Store(state.clone()));
    build = build.advance(BuilderEvent::Done);
    assert_eq!(build.action(), BuilderAction::Store(state));
}

#[test]
fn second_run_reuses_the_image() {
    let meta = metadata(&["gcc"], false);
    let mut store = ImagesState::new(".pkger.state");
    let cached = built_state("sha256:new", &["rpm-build", "util-linux", "gcc"], "{}");
    store.update(&key(), &cached);
    let mut build = ensure_image(&meta, &target(), &store, true, Timestamp { secs: 1609459300, nanos: 0 });
    assert_eq!(build.action(), BuilderAction::CheckImage { id: "sha256:new".to_string() });
    build = build.advance(BuilderEvent::Exists(true));
    assert_eq!(build.action(), BuilderAction::Reuse(cached));
}

#[test]
fn added_dependency_forces_a_rebuild() {
    let mut store = ImagesState::new(".pkger.state");
    store.update(&key(), &built_state("sha256:new", &["rpm-build", "util-linux", "gcc"], "{}"));
    let later = Timestamp { secs: 1609459300, nanos: 0 };
    let mut build = ensure_image(&metadata(&["gcc", "cmake"], false), &target(), &store, true, later);
    build = build.advance(BuilderEvent::Exists(true));
    assert_eq!(build.action(), BuilderAction::BuildBase { image: "centos".to_string(), simple: true });
    for event in [
        BuilderEvent::Id("sha256:base".to_string()),
        BuilderEvent::Done,
        output(0, &[OS_RELEASE], &[]),
        output(0, &[], &[]),
    ] {
        build = build.advance(event);
    }
    assert_eq!(build.action(), BuilderAction::Commit { tag: "centos-1609459300".to_string() });
    build = build.advance(BuilderEvent::Id("sha256:newer".to_string()));
    build = build.advance(BuilderEvent::Details("{}".to_string()));
    match build.action() {
        BuilderAction::Store(state) => {
            assert_eq!(state.id, "sha256:newer");
            assert_eq!(state.tag, "centos-1609459300");
            assert_eq!(state.deps, strings(&["rpm-build", "util-linux", "gcc", "cmake"]));
        }
        other => panic!("unexpected {other:?}"),
    }
}

#[test]
fn cached_image_is_rebuilt_when_anything_changed() {
    let cached = built_state("sha256:new", &["gcc"], "{}");
    let required = strings(&["gcc"]);
    let start = |simple: bool, required: &Vec<String>| {
        ImageBuild::new(key(), None, required.clone(), simple, NOW, Some(cached.clone()))
    };
    let rebuilds = |build: ImageBuild| matches!(build.action(), BuilderAction::BuildBase { .. });
    assert!(rebuilds(start(true, &required).advance(BuilderEvent::Exists(false))));
    assert!(rebuilds(start(true, &required).advance(BuilderEvent::Failed("no connection".to_string()))));
    assert!(rebuilds(start(true, &required).advance(BuilderEvent::Done)));
    assert!(rebuilds(start(false, &required).advance(BuilderEvent::Exists(true))));
    assert!(rebuilds(start(true, &strings(&["gcc", "make"])).advance(BuilderEvent::Exists(true))));
    assert!(rebuilds(start(true, &strings(&[])).advance(BuilderEvent::Exists(true))));
    assert!(!rebuilds(start(true, &required).advance(BuilderEvent::Exists(true))));
    assert!(!rebuilds(start(true, &strings(&["gcc", "gcc"])).advance(BuilderEvent::Exists(true))));
}

#[test]
fn declared_os_is_not_detected() {
    let declared = ImageTarget::new("mine", BuildTarget::Deb, Some(Os::new("debian", None)));
    let store = ImagesState::new(".pkger.state");
    let mut build = ensure_image(&metadata(&["gcc"], true), &declared, &store, false, NOW);
    assert_eq!(build.action(), BuilderAction::BuildBase { image: "mine".to_string(), simple: false });
    build = build.advance(BuilderEvent::Id("sha256:base".to_string()));
    build = build.advance(BuilderEvent::Done);
    assert_eq!(build.action(), exec("apt-get install -y gcc"));
    build = build.advance(output(0, &[], &[]));
    build = build.advance(BuilderEvent::Id("sha256:new".to_string()));
    build = build.advance(BuilderEvent::Details("d".to_string()));
    match build.action() {
        BuilderAction::Store(state) => {
            assert_eq!(state.os, Os::new("debian", None));
            assert_eq!(state.image, "mine");
            assert_eq!(state.tag, "mine-1609459200");
            assert!(!state.simple);
        }
        other => panic!("unexpected {other:?}"),
    }
}

#[test]
fn nothing_is_installed_when_nothing_is_required() {
    let mut build = ImageBuild::new(key(), Some(Os::new("plan9", None)), vec![], true, NOW, None);
    build = build.advance(BuilderEvent::Id("sha256:base".to_string()));
    build = build.advance(BuilderEvent::Done);
    assert_eq!(build.action(), BuilderAction::Commit { tag: "centos-1609459200".to_string() });
}

#[test]
fn build_failure_is_reported() {
    let mut build = ImageBuild::new(key(), None, strings(&["gcc"]), true, NOW, None);
    build = build.advance(BuilderEvent::Failed("pull access denied".to_string()));
    let failure = BuilderAction::Fail(PkgerError::ImageBuildFailed {
        image: "centos".to_string(),
        cause: "pull access denied".to_string(),
    });
    assert_eq!(build.action(), failure);
    build = build.advance(BuilderEvent::Id("late".to_string()));
    assert_eq!(build.action(), failure);
}

#[test]
fn start_failure_is_reported() {
    let mut build = ImageBuild::new(key(), None, strings(&["gcc"]), true, NOW, None);
    build = build.advance(BuilderEvent::Id("sha256:base".to_string()));
    build = build.advance(BuilderEvent::Failed("no space".to_string()));
    assert_eq!(
        build.action(),
        BuilderAction::Fail(PkgerError::ContainerStartFailed { image: "centos".to_string() })
    );
}

#[test]
fn os_detection_failure_is_reported() {
    let failure = BuilderAction::Fail(PkgerError::OsDetectionFailed { image: "centos".to_string() });
    for event in [
        output(1, &[OS_RELEASE], &["cat: no such file"]),
        output(0, &["NAME=Linux\n"], &[]),
        output(0, &[], &[]),
        BuilderEvent::Failed("gone".to_string()),
        BuilderEvent::Done,
    ] {
        let mut build = ImageBuild::new(key(), None, strings(&["gcc"]), true, NOW, None);
        build = build.advance(BuilderEvent::Id("sha256:base".to_string()));
        build = build.advance(BuilderEvent::Done);
        build = build.advance(event);
        assert_eq!(build.action(), failure);
    }
}

#[test]
fn install_failure_is_reported() {
    let at_install = || {
        let mut build = ImageBuild::new(key(), None, strings(&["gcc"]), true, NOW, None);
        build = build.advance(BuilderEvent::Id("sha256:base".to_string()));
        build = build.advance(BuilderEvent::Done);
        build.advance(output(0, &["ID=alpine\n"], &[]))
    };
    assert_eq!(at_install().action(), exec("apk add gcc"));
    assert_eq!(
        at_install().advance(output(1, &[], &["ERROR: unable to select packages:", "  gcc (no such package)"])).action(),
        BuilderAction::Fail(PkgerError::DependencyInstallFailed {
            image: "centos".to_string(),
            package_manager: "apk".to_string(),
            cause: "ERROR: unable to select packages:\n  gcc (no such package)".to_string(),
        })
    );
    assert_eq!(
        at_install().advance(BuilderEvent::Failed("gone".to_string())).action(),
        BuilderAction::Fail(PkgerError::DependencyInstallFailed {
            image: "centos".to_string(),
            package_manager: "apk".to_string(),
            cause: "gone".to_string(),
        })
    );
    assert_eq!(
        at_install().advance(BuilderEvent::Exists(true)).action(),
        BuilderAction::Fail(PkgerError::DependencyInstallFailed {
            image: "centos".to_string(),
            package_manager: "apk".to_string(),
            cause: "unexpected answer from the container runtime".to_string(),
        })
    );
}

#[test]
fn unknown_system_has_no_package_manager() {
    let mut build = ImageBuild::new(key(), None, strings(&["gcc"]), true, NOW, None);
    build = build.advance(BuilderEvent::Id("sha256:base".to_string()));
    build = build.advance(BuilderEvent::Done);
    build = build.advance(output(0, &["ID=plan9\n"], &[]));
    assert_eq!(
        build.action(),
        BuilderAction::Fail(PkgerError::DependencyInstallFailed {
            image: "centos".to_string(),
            package_manager: String::new(),
            cause: "no package manager is known for the system of the image".to_string(),
        })
    );
}

#[test]
fn commit_and_inspect_failures_are_reported() {
    let at_commit = || {
        let mut build = ImageBuild::new(key(), Some(Os::new("centos", None)), vec![], true, NOW, None);
        build = build.advance(BuilderEvent::Id("sha256:base".to_string()));
        build.advance(BuilderEvent::Done)
    };
    let failed = |cause: &str| {
        BuilderAction::Fail(PkgerError::ImageBuildFailed { image: "centos".to_string(), cause: cause.to_string() })
    };
    assert_eq!(at_commit().advance(BuilderEvent::Failed("full".to_string())).action(), failed("full"));
    let at_inspect = at_commit().advance(BuilderEvent::Id("sha256:new".to_string()));
    assert_eq!(at_inspect.stage, BuildStage::Inspect { os: Os::new("centos", None), id: "sha256:new".to_string() });
    assert_eq!(at_inspect.advance(BuilderEvent::Failed("gone".to_string())).action(), failed("gone"));
}

#[test]
fn new_image_is_stored_at_the_end() {
    let mut store = ImagesState::new(".pkger.state");
    let mut build = ImageBuild::new(key(), Some(Os::new("centos", Some("8"))), vec![], true, NOW, None);
    for event in [
        BuilderEvent::Id("sha256:base".to_string()),
        BuilderEvent::Done,
        BuilderEvent::Id("sha256:new".to_string()),
        BuilderEvent::Details("{}".to_string()),
    ] {
        build = build.advance(event);
    }
    let state = built_state("sha256:new", &[], "{}");
    assert_eq!(build.finish(&mut store), Ok(state.clone()));
    assert_eq!(store.find(&key()), Some(&state));
    assert_eq!(store.len(), 1);
}

#[test]
fn reused_image_and_failure_leave_the_store_alone() {
    let cached = built_state("sha256:old", &["gcc"], "{}");
    let mut store = ImagesState::new(".pkger.state");
    store.update(&key(), &cached);
    let before = store.rows();

    let reuse = ImageBuild::new(key(), None, strings(&["gcc"]), true, NOW, Some(cached.clone()))
        .advance(BuilderEvent::Exists(true));
    assert_eq!(reuse.finish(&mut store), Ok(cached.clone()));
    assert_eq!(store.rows(), before);

    let failed = ImageBuild::new(key(), None, strings(&["gcc"]), true, NOW, None)
        .advance(BuilderEvent::Failed("denied".to_string()));
    assert_eq!(
        failed.finish(&mut store),
        Err(PkgerError::ImageBuildFailed { image: "centos".to_string(), cause: "denied".to_string() })
    );
    assert_eq!(store.rows(), before);

    let unfinished = ImageBuild::new(key(), None, strings(&["gcc"]), true, NOW, None);
    assert_eq!(
        unfinished.finish(&mut store),
        Err(PkgerError::ImageBuildFailed {
            image: "centos".to_string(),
            cause: "the image is not built yet".to_string()
        })
    );
    assert_eq!(store.rows(), before);
}
