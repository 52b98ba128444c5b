use pkger::assemble::{
    artifact_name, assemble, fail_assembly, gzip_build, PackageBuild, PlannedBuild, PlannedStep,
};
use pkger::deb::deb_build;
use pkger::deps::Dependencies;
use pkger::error::PkgerError;
use pkger::metadata::{DebInfo, Metadata, RpmInfo};
use pkger::recipe::{Recipe, Script, Step};
use pkger::scripts::BuildContext;
use pkger::session::{Action, Event, ExecOpts, ExecOutput};
use pkger::state::{ImageState, Timestamp};
use pkger::target::{BuildTarget, ImageTarget, Os, RecipeTarget};

fn strings(items: &[&str]) -> Vec<String> {
    items.iter().map(|s| s.to_string()).collect()
}

fn metadata(arch: Option<&str>) -> Metadata {
    Metadata {
        name: "hello".to_string(),
        version: "1.0".to_string(),
        description: "says hello".to_string(),
        license: "MIT".to_string(),
        images: vec![ImageTarget::new("debian", BuildTarget::Deb, None)],
        maintainer: None,
        arch: arch.map(|a| a.to_string()),
        source: None,
        git: None,
        skip_default_deps: None,
        exclude: None,
        group: None,
        build_depends: None,
        depends: None,
        conflicts: None,
        provides: None,
        deb: None,
        rpm: None,
    }
}

fn image_state(image: &str) -> ImageState {
    let at = Timestamp { secs: 1, nanos: 0 };
    let target = RecipeTarget::new("hello", &ImageTarget::new(image, BuildTarget::Deb, None));
    ImageState::new("id", &target, "tag", &at, None, Some(Os::new("debian", None)), "", &vec![], true).unwrap()
}

fn exec(cmd: &str, dir: Option<&str>) -> Action {
    Action::Exec(ExecOpts {
        cmd: cmd.to_string(),
        working_dir: dir.map(|d| d.to_string()),
        shell: None,
        user: None,
        env: vec![],
    })
}

fn ok() -> Event {
    Event::Output(ExecOutput { exit_code: 0, stdout: vec![], stderr: vec![] })
}

#[test]
fn artifacts_are_named_by_format() {
    let m = metadata(Some("amd64"));
    assert_eq!(artifact_name(&m, BuildTarget::Deb), "hello_1.0_amd64.deb");
    assert_eq!(artifact_name(&m, BuildTarget::Rpm), "hello-1.0-0.x86_64.rpm");
    assert_eq!(artifact_name(&m, BuildTarget::Gzip), "hello-1.0.tar.gz");
    let plain = metadata(None);
    assert_eq!(artifact_name(&plain, BuildTarget::Deb), "hello_1.0_all.deb");
    assert_eq!(artifact_name(&plain, BuildTarget::Rpm), "hello-1.0-0.noarch.rpm");
}

#[test]
fn rpm_artifact_carries_release_and_arch() {
    let mut m = metadata(Some("aarch64"));
    m.rpm = Some(RpmInfo {
        obsoletes: None,
        release: Some("3".to_string()),
        epoch: None,
        vendor: None,
        icon: None,
        summary: None,
        pre_script: None,
        post_script: None,
        preun_script: None,
        postun_script: None,
        config_noreplace: None,
    });
    assert_eq!(artifact_name(&m, BuildTarget::Rpm), "hello-1.0-3.aarch64.rpm");
    let mut build = assemble(&m, BuildTarget::Rpm, &image_state("centos"), "/out", "/host");
    for _ in 0..9 {
        build = build.advance(Event::Done);
    }
    assert_eq!(build.action(), Action::Finish { artifact: "/host/hello-1.0-3.aarch64.rpm".to_string() });
}

#[test]
fn control_file_is_rendered() {
    let mut m = metadata(Some("amd64"));
    assert_eq!(
        m.as_deb_control("debian").render(),
        "Package: hello\nVersion: 1.0\nArchitecture: amd64\nDescription: says hello\n"
    );
    m.maintainer = Some("me <me@example.com>".to_string());
    m.group = Some("utils".to_string());
    m.deb = Some(DebInfo { priority: Some("optional".to_string()) });
    m.depends = Some(Dependencies {
        default: strings(&["libc6"]),
        per_image: vec![("debian".to_string(), strings(&["zlib1g"])), ("centos".to_string(), strings(&["zlib"]))],
    });
    m.conflicts = Some(Dependencies { default: strings(&["goodbye"]), per_image: vec![] });
    m.provides = Some(Dependencies { default: vec![], per_image: vec![] });
    let control = m.as_deb_control("debian");
    assert_eq!(control.depends, strings(&["libc6", "zlib1g"]));
    assert_eq!(
        control.render(),
        "Package: hello
Version: 1.0
Architecture: amd64
Maintainer: me <me@example.com>
Section: utils
Priority: optional
Depends: libc6, zlib1g
Conflicts: goodbye
Description: says hello
"
    );
}

#[test]
fn deb_build_takes_its_steps_in_order() {
    let m = metadata(Some("amd64"));
    let mut build = deb_build(&m, "debian", "/tmp/hello-out", "/home/me/out");
    assert_eq!(
        build.action(),
        Action::CreateDirs(strings(&["/tmp/hello-1.0/DEBIAN", "/tmp/hello-1.0-deb"]))
    );
    build.advance(Event::Done);
    assert_eq!(build.action(), exec("cp -rv . /tmp/hello-1.0", Some("/tmp/hello-out")));
    build.advance(ok());
    assert_eq!(
        build.action(),
        Action::Upload {
            path: "/tmp/hello-1.0-control.tar".to_string(),
            entry: "./control".to_string(),
            content: "Package: hello\nVersion: 1.0\nArchitecture: amd64\nDescription: says hello\n".to_string(),
        }
    );
    build.advance(Event::Done);
    assert_eq!(build.action(), exec("tar -xvf /tmp/hello-1.0-control.tar -C /tmp/hello-1.0/DEBIAN", None));
    build.advance(ok());
    assert_eq!(
        build.action(),
        exec(
            "dpkg-deb --build --root-owner-group /tmp/hello-1.0 /tmp/hello-1.0-deb/hello_1.0_amd64.deb",
            None
        )
    );
    build.advance(ok());
    assert_eq!(
        build.action(),
        Action::Download { from: "/tmp/hello-1.0-deb".to_string(), to: "/home/me/out".to_string() }
    );
    build.advance(Event::Done);
    let done = Action::Finish { artifact: "/home/me/out/hello_1.0_amd64.deb".to_string() };
    assert_eq!(build.action(), done);
    build.advance(Event::Failed(PkgerError::StateFileCorrupt));
    assert_eq!(build.action(), done);
}

#[test]
fn gzip_build_packs_the_install_tree() {
    let m = metadata(None);
    let mut build = gzip_build(&m, "/tmp/hello-out", "out");
    assert_eq!(build.action(), Action::CreateDirs(strings(&["/tmp/hello-1.0-gzip"])));
    build.advance(Event::Done);
    assert_eq!(
        build.action(),
        exec("tar -zcvf /tmp/hello-1.0-gzip/hello-1.0.tar.gz .", Some("/tmp/hello-out"))
    );
    build.advance(ok());
    assert_eq!(
        build.action(),
        Action::Download { from: "/tmp/hello-1.0-gzip".to_string(), to: "out".to_string() }
    );
    build.advance(Event::Done);
    assert_eq!(build.action(), Action::Finish { artifact: "out/hello-1.0.tar.gz".to_string() });
}

#[test]
fn failed_deb_step_fails_the_assembly() {
    let m = metadata(Some("amd64"));
    let mut build = deb_build(&m, "debian", "/out", "/host");
    for _ in 0..4 {
        build.advance(Event::Done);
    }
    build.advance(Event::Output(ExecOutput { exit_code: 2, stdout: vec![], stderr: strings(&["dpkg-deb: error"]) }));
    let failure = Action::Fail(PkgerError::PackageAssemblyFailed {
        format: BuildTarget::Deb,
        cause: "failed to build deb package - command `dpkg-deb --build --root-owner-group /tmp/hello-1.0 /tmp/hello-1.0-deb/hello_1.0_amd64.deb` failed with exit code 2\ndpkg-deb: error".to_string(),
    });
    assert_eq!(build.action(), failure);
    build.advance(Event::Done);
    assert_eq!(build.action(), failure);
}

#[test]
fn failed_gzip_step_fails_the_assembly() {
    let mut build = gzip_build(&metadata(None), "/out", "/host");
    build.advance(Event::Failed(PkgerError::ContainerExecFailed { cmd: "mkdir".to_string(), cause: "gone".to_string() }));
    assert_eq!(
        build.action(),
        Action::Fail(PkgerError::PackageAssemblyFailed {
            format: BuildTarget::Gzip,
            cause: "failed to create directories - failed to execute `mkdir` - gone".to_string(),
        })
    );
}

#[test]
fn assembly_is_dispatched_by_format() {
    let m = metadata(Some("amd64"));
    let state = image_state("debian");
    assert!(matches!(assemble(&m, BuildTarget::Rpm, &state, "/out", "/host"), PackageBuild::Rpm(_)));
    assert!(matches!(assemble(&m, BuildTarget::Deb, &state, "/out", "/host"), PackageBuild::Deb(_)));
    assert!(matches!(assemble(&m, BuildTarget::Gzip, &state, "/out", "/host"), PackageBuild::Gzip(_)));
    let mut deb = assemble(&m, BuildTarget::Deb, &state, "/out", "/host");
    assert_eq!(deb, PackageBuild::Deb(deb_build(&m, "debian", "/out", "/host")));
    for _ in 0..6 {
        deb = deb.advance(Event::Done);
    }
    assert_eq!(deb.action(), Action::Finish { artifact: "/host/hello_1.0_amd64.deb".to_string() });
}

#[test]
fn context_starts_the_assembly_of_its_target() {
    let recipe = Recipe {
        metadata: metadata(Some("amd64")),
        configure_script: None,
        build_script: Script { working_dir: None, shell: None, steps: vec![Step::new("make")] },
        install_script: None,
    };
    let ctx = BuildContext {
        target: ImageTarget::new("debian", BuildTarget::Deb, None),
        container_bld_dir: "/bld".to_string(),
        container_out_dir: "/out".to_string(),
    };
    let state = image_state("debian");
    assert_eq!(
        ctx.assemble(&recipe, &state, "/host"),
        PackageBuild::Deb(deb_build(&recipe.metadata, "debian", "/out", "/host"))
    );
    let rpm = ctx.build_rpm(&recipe, &state, "/host");
    assert_eq!(rpm.action(), Action::CreateDirs(strings(&[
        "/root/rpmbuild/SPECS",
        "/root/rpmbuild/SOURCES",
        "/root/rpmbuild/RPMS",
        "/root/rpmbuild/RPMS/x86_64",
        "/root/rpmbuild/SRPMS",
    ])));
}

#[test]
fn planned_build_without_steps_is_finished() {
    let mut build = PlannedBuild::new(BuildTarget::Gzip, vec![], "a".to_string());
    assert_eq!(build.action(), Action::Finish { artifact: "a".to_string() });
    build.advance(Event::Done);
    assert_eq!(build.action(), Action::Finish { artifact: "a".to_string() });
    let step = PlannedStep { action: exec("true", None), context: None };
    let mut one = PlannedBuild::new(BuildTarget::Gzip, vec![step], "a".to_string());
    one.advance(Event::Failed(PkgerError::StateFileCorrupt));
    assert_eq!(
        one.action(),
        Action::Fail(PkgerError::PackageAssemblyFailed {
            format: BuildTarget::Gzip,
            cause: "the state file is corrupt".to_string()
        })
    );
}

#[test]
fn assembly_failure_keeps_the_cause() {
    let inner = PkgerError::StateFileCorrupt;
    assert_eq!(
        fail_assembly(BuildTarget::Rpm, Some("ctx"), &inner),
        PkgerError::PackageAssemblyFailed {
            format: BuildTarget::Rpm,
            cause: "ctx - the state file is corrupt".to_string()
        }
    );
}
