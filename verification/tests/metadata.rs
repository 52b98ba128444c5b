use pkger::deps::Dependencies;
use pkger::error::{PkgerError, RecipeFault};
use pkger::git::GitSource;
use pkger::metadata::{DebInfo, DebRep, Metadata, MetadataRep, RpmInfo, RpmRep};
use pkger::target::{BuildTarget, ImageTarget, Os};
use pkger::value::Value;

fn text(s: &str) -> Value {
    Value::String(s.to_string())
}

fn table(entries: &[(&str, Value)]) -> Value {
    let mut out = Vec::new();
    for (k, v) in entries {
        out.push((k.to_string(), copy(v)));
    }
    Value::Table(out)
}

fn copy(v: &Value) -> Value {
    match v {
        Value::String(s) => Value::String(s.clone()),
        Value::Integer(i) => Value::Integer(*i),
        Value::Float => Value::Float,
        Value::Boolean(b) => Value::Boolean(*b),
        Value::Datetime => Value::Datetime,
        Value::Array(items) => Value::Array(items.iter().map(copy).collect()),
        Value::Table(entries) => {
            Value::Table(entries.iter().map(|(k, v)| (k.clone(), copy(v))).collect())
        }
    }
}

fn list(items: &[&str]) -> Value {
    Value::Array(items.iter().map(|s| text(s)).collect())
}

fn metadata(arch: Option<&str>) -> Metadata {
    Metadata {
        name: "hello".to_string(),
        version: "1.0".to_string(),
        description: "says hello".to_string(),
        license: "MIT".to_string(),
        images: vec![ImageTarget::new("debian", BuildTarget::Deb, None)],
        maintainer: None,
        arch: arch.map(|a| a.to_string()),
        source: None,
        git: None,
        skip_default_deps: None,
        exclude: None,
        group: None,
        build_depends: None,
        depends: None,
        conflicts: None,
        provides: None,
        deb: None,
        rpm: None,
    }
}

fn rpm_rep() -> RpmRep {
    RpmRep {
        obsoletes: None,
        release: None,
        epoch: None,
        vendor: None,
        icon: None,
        summary: None,
        pre_script: None,
        post_script: None,
        preun_script: None,
        postun_script: None,
        config_noreplace: None,
    }
}

fn rep() -> MetadataRep {
    MetadataRep {
        name: "hello".to_string(),
        version: "1.0".to_string(),
        description: "says hello".to_string(),
        license: "MIT".to_string(),
        images: vec![table(&[("name", text("debian")), ("target", text("deb"))])],
        maintainer: None,
        arch: None,
        source: None,
        git: None,
        skip_default_deps: None,
        exclude: None,
        group: None,
        build_depends: None,
        depends: None,
        conflicts: None,
        provides: None,
        deb: None,
        rpm: None,
    }
}

fn fault(rep: MetadataRep) -> RecipeFault {
    match Metadata::try_from(rep) {
        Err(PkgerError::RecipeInvalid(fault)) => fault,
        other => panic!("expected an invalid recipe, got {other:?}"),
    }
}

#[test]
fn deb_arch_follows_the_mapping() {
    assert_eq!(metadata(Some("amd64")).deb_arch(), "amd64");
    assert_eq!(metadata(Some("x86_64")).deb_arch(), "amd64");
    assert_eq!(metadata(Some("x86")).deb_arch(), "i386");
    assert_eq!(metadata(Some("i386")).deb_arch(), "i386");
    assert_eq!(metadata(Some("aarch64")).deb_arch(), "aarch64");
    assert_eq!(metadata(Some("")).deb_arch(), "");
    assert_eq!(metadata(None).deb_arch(), "all");
}

#[test]
fn rpm_arch_follows_the_mapping() {
    assert_eq!(metadata(Some("amd64")).rpm_arch(), "x86_64");
    assert_eq!(metadata(Some("x86_64")).rpm_arch(), "x86_64");
    assert_eq!(metadata(Some("x86")).rpm_arch(), "x86");
    assert_eq!(metadata(Some("i386")).rpm_arch(), "x86");
    assert_eq!(metadata(Some("aarch64")).rpm_arch(), "aarch64");
    assert_eq!(metadata(Some("AMD64")).rpm_arch(), "AMD64");
    assert_eq!(metadata(None).rpm_arch(), "noarch");
}

#[test]
fn arch_names_depend_on_the_arch_alone() {
    let mut a = metadata(Some("amd64"));
    let mut b = metadata(Some("amd64"));
    a.name = "one".to_string();
    b.name = "two".to_string();
    b.rpm = Some(RpmInfo::try_from(rpm_rep()).unwrap());
    assert_eq!(a.deb_arch(), b.deb_arch());
    assert_eq!(a.rpm_arch(), b.rpm_arch());
}

#[test]
fn rpm_release_defaults_to_zero() {
    let mut m = metadata(None);
    assert_eq!(m.rpm_release(), "0");
    m.rpm = Some(RpmInfo::try_from(rpm_rep()).unwrap());
    assert_eq!(m.rpm_release(), "0");
    let mut with_release = rpm_rep();
    with_release.release = Some("3".to_string());
    m.rpm = Some(RpmInfo::try_from(with_release).unwrap());
    assert_eq!(m.rpm_release(), "3");
}

#[test]
fn deb_info_is_taken_from_its_rep() {
    let info = DebInfo::from(DebRep { priority: Some("optional".to_string()) });
    assert_eq!(info.priority, Some("optional".to_string()));
    assert_eq!(DebInfo::from(DebRep { priority: None }).priority, None);
}

#[test]
fn rpm_info_resolves_obsoletes() {
    let mut r = rpm_rep();
    r.obsoletes = Some(list(&["old-hello"]));
    r.vendor = Some("acme".to_string());
    let info = RpmInfo::try_from(r).unwrap();
    assert_eq!(info.vendor, Some("acme".to_string()));
    assert_eq!(info.obsoletes.unwrap().default, vec!["old-hello".to_string()]);

    let mut bad = rpm_rep();
    bad.obsoletes = Some(text("old-hello"));
    assert_eq!(
        RpmInfo::try_from(bad),
        Err(PkgerError::RecipeInvalid(RecipeFault::Obsoletes))
    );
}

#[test]
fn a_simple_recipe_loads() {
    let m = Metadata::try_from(rep()).unwrap();
    assert_eq!(m.name, "hello");
    assert_eq!(m.version, "1.0");
    assert_eq!(m.images, vec![ImageTarget::new("debian", BuildTarget::Deb, None)]);
    assert_eq!(m.git, None);
    assert_eq!(m.build_depends, None);
    assert_eq!(m.rpm, None);
    assert_eq!(m.deb_arch(), "all");
}

#[test]
fn every_field_is_resolved() {
    let mut r = rep();
    r.images.push(table(&[("name", text("centos")), ("target", text("rpm")), ("os", text("centos"))]));
    r.images.push(table(&[("name", text("alpine"))]));
    r.maintainer = Some("me".to_string());
    r.arch = Some("amd64".to_string());
    r.source = Some("https://example.com/hello.tar.gz".to_string());
    r.git = Some(table(&[("url", text("https://example.com/hello.git")), ("branch", text("dev"))]));
    r.skip_default_deps = Some(true);
    r.exclude = Some(vec!["share".to_string()]);
    r.group = Some("utils".to_string());
    r.build_depends = Some(table(&[("all", list(&["gcc"])), ("centos", list(&["rpm-build"]))]));
    r.depends = Some(list(&["libc"]));
    r.conflicts = Some(list(&[]));
    r.provides = Some(list(&["hello"]));
    r.deb = Some(DebRep { priority: Some("optional".to_string()) });
    let mut rpm = rpm_rep();
    rpm.release = Some("3".to_string());
    rpm.obsoletes = Some(list(&["hi"]));
    r.rpm = Some(rpm);

    let m = Metadata::try_from(r).unwrap();
    assert_eq!(
        m.images,
        vec![
            ImageTarget::new("debian", BuildTarget::Deb, None),
            ImageTarget::new("centos", BuildTarget::Rpm, Some(Os::new("centos", None))),
            ImageTarget::new("alpine", BuildTarget::Gzip, None),
        ]
    );
    assert_eq!(m.maintainer, Some("me".to_string()));
    assert_eq!(m.arch, Some("amd64".to_string()));
    assert_eq!(m.source, Some("https://example.com/hello.tar.gz".to_string()));
    assert_eq!(m.git, Some(GitSource::new("https://example.com/hello.git", Some("dev"))));
    assert_eq!(m.skip_default_deps, Some(true));
    assert_eq!(m.exclude, Some(vec!["share".to_string()]));
    assert_eq!(m.group, Some("utils".to_string()));
    let build_depends = m.build_depends.as_ref().unwrap();
    assert_eq!(build_depends.resolve_names("centos"), vec!["gcc", "rpm-build"]);
    assert_eq!(build_depends.resolve_names("debian"), vec!["gcc"]);
    assert_eq!(m.depends.as_ref().unwrap().default, vec!["libc"]);
    assert_eq!(m.conflicts, Some(Dependencies::new()));
    assert_eq!(m.provides.as_ref().unwrap().default, vec!["hello"]);
    assert_eq!(m.deb, Some(DebInfo { priority: Some("optional".to_string()) }));
    assert_eq!(m.rpm_release(), "3");
    assert_eq!(m.rpm.as_ref().unwrap().obsoletes.as_ref().unwrap().default, vec!["hi"]);
    assert_eq!(m.deb_arch(), "amd64");
    assert_eq!(m.rpm_arch(), "x86_64");
}

#[test]
fn git_source_defaults_to_master() {
    let mut r = rep();
    r.git = Some(text("https://example.com/hello.git"));
    let m = Metadata::try_from(r).unwrap();
    let git = m.git.unwrap();
    assert_eq!(git.url(), "https://example.com/hello.git");
    assert_eq!(git.branch(), "master");

    let with_branch = GitSource::from_value(&table(&[
        ("url", text("https://example.com/hello.git")),
        ("branch", text("dev")),
    ]))
    .unwrap();
    assert_eq!(with_branch.branch(), "dev");
    let without = GitSource::from_value(&table(&[("url", text("u"))])).unwrap();
    assert_eq!(without, GitSource::Url("u".to_string()));
    assert_eq!(without.branch(), "master");
    assert_eq!(GitSource::from_value(&table(&[("branch", text("dev"))])), None);
    assert_eq!(GitSource::from_value(&table(&[("url", Value::Integer(1))])), None);
    assert_eq!(
        GitSource::from_value(&table(&[("url", text("u")), ("branch", Value::Boolean(true))])),
        None
    );
    assert_eq!(GitSource::from_value(&Value::Integer(1)), None);
}

#[test]
fn empty_name_is_refused() {
    let mut r = rep();
    r.name = String::new();
    assert_eq!(fault(r), RecipeFault::EmptyName);
}

#[test]
fn empty_version_is_refused() {
    let mut r = rep();
    r.version = String::new();
    assert_eq!(fault(r), RecipeFault::EmptyVersion);
}

#[test]
fn missing_images_are_refused() {
    let mut r = rep();
    r.images = vec![];
    assert_eq!(fault(r), RecipeFault::NoImages);
}

#[test]
fn bad_image_entries_are_refused() {
    for bad in [
        text("debian"),
        table(&[("target", text("deb"))]),
        table(&[("name", Value::Integer(1))]),
        table(&[("name", text("debian")), ("target", text("exe"))]),
        table(&[("name", text("debian")), ("target", text("DEB"))]),
        table(&[("name", text("debian")), ("target", Value::Boolean(true))]),
        table(&[("name", text("debian")), ("os", Value::Integer(10))]),
    ] {
        let mut r = rep();
        r.images.push(bad);
        assert_eq!(fault(r), RecipeFault::Image);
    }
}

#[test]
fn bad_git_source_is_refused() {
    let mut r = rep();
    r.git = Some(Value::Boolean(true));
    assert_eq!(fault(r), RecipeFault::Git);
}

#[test]
fn bad_dependencies_are_refused_by_field() {
    let mut r = rep();
    r.build_depends = Some(text("gcc"));
    assert_eq!(fault(r), RecipeFault::BuildDepends);
    let mut r = rep();
    r.depends = Some(Value::Integer(1));
    assert_eq!(fault(r), RecipeFault::Depends);
    let mut r = rep();
    r.conflicts = Some(Value::Array(vec![Value::Float]));
    assert_eq!(fault(r), RecipeFault::Conflicts);
    let mut r = rep();
    r.provides = Some(Value::Datetime);
    assert_eq!(fault(r), RecipeFault::Provides);
    let mut r = rep();
    let mut rpm = rpm_rep();
    rpm.obsoletes = Some(Value::Boolean(false));
    r.rpm = Some(rpm);
    assert_eq!(fault(r), RecipeFault::Obsoletes);
}

#[test]
fn the_first_fault_is_reported() {
    let mut r = rep();
    r.name = String::new();
    r.version = String::new();
    r.images = vec![];
    r.git = Some(Value::Boolean(true));
    assert_eq!(fault(r), RecipeFault::EmptyName);

    let mut r = rep();
    r.git = Some(Value::Boolean(true));
    r.provides = Some(Value::Datetime);
    r.images.push(text("debian"));
    assert_eq!(fault(r), RecipeFault::Provides);

    let mut r = rep();
    r.git = Some(Value::Boolean(true));
    r.images.push(text("debian"));
    assert_eq!(fault(r), RecipeFault::Image);
}

#[test]
fn hello_recipe_for_debian() {
    let mut r = rep();
    r.arch = Some("amd64".to_string());
    let m = Metadata::try_from(r).unwrap();
    assert_eq!(m.deb_arch(), "amd64");
}
