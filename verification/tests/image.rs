use pkger::deps::Dependencies;
use pkger::error::PkgerError;
use pkger::image::{
    default_packages, package_manager, parse_os_release, required_packages, PackageManager,
};
use pkger::metadata::Metadata;
use pkger::target::{BuildTarget, ImageTarget, Os};
use pkger::text::split_lines;

fn strings(items: &[&str]) -> Vec<String> {
    items.iter().map(|s| s.to_string()).collect()
}

fn metadata(skip: Option<bool>) -> Metadata {
    Metadata {
        name: "hello".to_string(),
        version: "1.0".to_string(),
        description: "says hello".to_string(),
        license: "MIT".to_string(),
        images: vec![ImageTarget::new("centos", BuildTarget::Rpm, None)],
        maintainer: None,
        arch: None,
        source: None,
        git: None,
        skip_default_deps: skip,
        exclude: None,
        group: None,
        build_depends: Some(Dependencies {
            default: strings(&["gcc", "tar"]),
            per_image: vec![("centos".to_string(), strings(&["rpm-build"]))],
        }),
        depends: None,
        conflicts: None,
        provides: None,
        deb: None,
        rpm: None,
    }
}

#[test]
fn default_packages_come_first() {
    let defaults = strings(&["tar", "gzip", "tar"]);
    assert_eq!(
        required_packages(&metadata(None), "centos", &defaults),
        strings(&["tar", "gzip", "gcc", "rpm-build"])
    );
    assert_eq!(
        required_packages(&metadata(Some(false)), "debian", &defaults),
        strings(&["tar", "gzip", "gcc"])
    );
}

#[test]
fn default_packages_can_be_skipped() {
    let defaults = strings(&["tar", "gzip"]);
    assert_eq!(
        required_packages(&metadata(Some(true)), "centos", &defaults),
        strings(&["gcc", "tar", "rpm-build"])
    );
    let mut m = metadata(Some(true));
    m.build_depends = None;
    assert_eq!(required_packages(&m, "centos", &defaults), Vec::<String>::new());
    m.skip_default_deps = None;
    assert_eq!(required_packages(&m, "centos", &defaults), defaults);
}

#[test]
fn lines_are_split_at_line_feeds() {
    assert_eq!(split_lines("a\nb\n\nc"), strings(&["a", "b", "", "c"]));
    assert_eq!(split_lines("a\n"), strings(&["a", ""]));
    assert_eq!(split_lines(""), strings(&[""]));
    assert_eq!(split_lines("\n"), strings(&["", ""]));
    for s in ["x\ny", "", "\n\n", "no feed", "a\r\nb"] {
        let expected: Vec<String> = s.split('\n').map(|l| l.to_string()).collect();
        assert_eq!(split_lines(s), expected);
    }
}

#[test]
fn os_release_names_distribution_and_release() {
    let centos = "NAME=\"CentOS Linux\"\nVERSION=\"8\"\nID=\"centos\"\nID_LIKE=\"rhel fedora\"\nVERSION_ID=\"8\"\nPLATFORM_ID=\"platform:el8\"\n";
    assert_eq!(parse_os_release(centos), Some(Os::new("centos", Some("8"))));
    let debian = "PRETTY_NAME=\"Debian GNU/Linux 10 (buster)\"\nNAME=\"Debian GNU/Linux\"\nVERSION_ID=\"10\"\nID=debian\n";
    assert_eq!(parse_os_release(debian), Some(Os::new("debian", Some("10"))));
    let arch = "NAME=\"Arch Linux\"\nID=arch\nBUILD_ID=rolling";
    assert_eq!(parse_os_release(arch), Some(Os::new("arch", None)));
    assert_eq!(parse_os_release("ID='alpine'\nVERSION_ID=3.13.0"), Some(Os::new("alpine", Some("3.13.0"))));
}

#[test]
fn content_without_an_id_names_no_system() {
    assert_eq!(parse_os_release(""), None);
    assert_eq!(parse_os_release("NAME=Linux\nVERSION_ID=1\nID_LIKE=debian\n"), None);
    assert_eq!(parse_os_release(" ID=debian"), None);
    assert_eq!(parse_os_release("id=debian"), None);
}

#[test]
fn the_last_assignment_counts() {
    assert_eq!(parse_os_release("ID=one\nID=two\n"), Some(Os::new("two", None)));
    assert_eq!(parse_os_release("ID=\nVERSION_ID=\"\""), Some(Os::new("", Some(""))));
    assert_eq!(parse_os_release("ID=\"half"), Some(Os::new("\"half", None)));
    assert_eq!(parse_os_release("ID=\""), Some(Os::new("\"", None)));
    assert_eq!(parse_os_release("ID=\"a'"), Some(Os::new("\"a'", None)));
}

#[test]
fn default_packages_by_format() {
    assert_eq!(default_packages(BuildTarget::Rpm), strings(&["rpm-build", "util-linux"]));
    assert_eq!(default_packages(BuildTarget::Deb), strings(&["dpkg"]));
    assert_eq!(default_packages(BuildTarget::Gzip), strings(&["tar"]));
}

#[test]
fn package_manager_by_distribution() {
    let cases = [
        ("debian", Some(PackageManager::Apt)),
        ("ubuntu", Some(PackageManager::Apt)),
        ("fedora", Some(PackageManager::Dnf)),
        ("centos", Some(PackageManager::Yum)),
        ("rhel", Some(PackageManager::Yum)),
        ("rocky", Some(PackageManager::Yum)),
        ("arch", Some(PackageManager::Pacman)),
        ("alpine", Some(PackageManager::Apk)),
        ("opensuse", Some(PackageManager::Zypper)),
        ("sles", Some(PackageManager::Zypper)),
        ("plan9", None),
        ("", None),
        ("Debian", None),
    ];
    for (distro, manager) in cases {
        assert_eq!(package_manager(&Os::new(distro, None)), manager);
    }
}

#[test]
fn install_commands() {
    let packages = strings(&["gcc", "make"]);
    assert_eq!(PackageManager::Apt.install(&packages), "apt-get install -y gcc make");
    assert_eq!(PackageManager::Dnf.install(&packages), "dnf install -y gcc make");
    assert_eq!(PackageManager::Yum.install(&packages), "yum install -y gcc make");
    assert_eq!(PackageManager::Pacman.install(&packages), "pacman -S --noconfirm gcc make");
    assert_eq!(PackageManager::Apk.install(&packages), "apk add gcc make");
    assert_eq!(PackageManager::Zypper.install(&strings(&["gcc"])), "zypper install -y gcc");
    assert_eq!(
        PackageManager::Apk.failed("alpine", "no network"),
        PkgerError::DependencyInstallFailed {
            image: "alpine".to_string(),
            package_manager: "apk".to_string(),
            cause: "no network".to_string(),
        }
    );
}
