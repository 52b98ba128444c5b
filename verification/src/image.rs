//! What the image builder decides: which packages an image has to hold and
//! which system runs inside it.

use crate::deps::{add_missing, extend_unique, resolve_or_none, resolved_or_none};
use crate::error::{PkgerError, PkgerErrorView};
use crate::metadata::{Metadata, MetadataView};
use crate::target::{BuildTarget, Os, OsView};
use crate::text::{
    chars_of, has_prefix, join, joined_with, lines_of, matches_at, split_lines, str_eq,
    string_of_range,
};
use vstd::prelude::*;
use vstd::string::*;

verus! {

/// Whether the default packages are installed into the images of a recipe:
/// they are, unless the recipe asks to skip them.
pub open spec fn wants_default_deps(meta: MetadataView) -> bool {
    meta.skip_default_deps != Some(true)
}

/// The packages that the image of a recipe for `image` has to hold: the
/// default packages, unless the recipe skips them, and the build
/// dependencies the recipe declares for the image; each of them once.
pub open spec fn required_packages_of(
    meta: MetadataView,
    image: Seq<char>,
    defaults: Seq<Seq<char>>,
) -> Seq<Seq<char>> {
    let base = if wants_default_deps(meta) {
        extend_unique(Seq::empty(), defaults)
    } else {
        Seq::empty()
    };
    extend_unique(base, resolved_or_none(meta.build_depends, image))
}

/// The packages to install into the image of a recipe for `image`.
/// `defaults` names the packages that every image gets.
pub fn required_packages(meta: &Metadata, image: &str, defaults: &Vec<String>) -> (r: Vec<String>)
    ensures
        r.deep_view() == required_packages_of(meta@, image@, defaults.deep_view()),
{
    let mut out: Vec<String> = Vec::new();
    assert(out.deep_view() == Seq::<Seq<char>>::empty());
    let skip = match meta.skip_default_deps {
        Some(skip) => skip,
        None => false,
    };
    if !skip {
        add_missing(&mut out, defaults);
    }
    let declared = resolve_or_none(&meta.build_depends, image);
    add_missing(&mut out, &declared);
    out
}

/// A value without the pair of quotes around it, if it has one.
pub open spec fn unquoted(value: Seq<char>) -> Seq<char> {
    if value.len() >= 2 && (value[0] == '"' || value[0] == '\'') && value.last() == value[0] {
        value.subrange(1, value.len() - 1)
    } else {
        value
    }
}

/// The value assigned to `key` by the last line that assigns one.
pub open spec fn assigned(lines: Seq<Seq<char>>, key: Seq<char>) -> Option<Seq<char>>
    decreases lines.len(),
{
    if lines.len() == 0 {
        None
    } else if has_prefix(lines.last(), key + "="@) {
        Some(unquoted(lines.last().skip(key.len() as int + 1)))
    } else {
        assigned(lines.drop_last(), key)
    }
}

/// The system that the content of an `os-release` file names: its `ID` is
/// the distribution, its `VERSION_ID` the release. Content without an `ID`
/// names no system.
pub open spec fn os_release_of(content: Seq<char>) -> Option<OsView> {
    match assigned(lines_of(content), "ID"@) {
        Some(distro) => Some(
            OsView { distro, version: assigned(lines_of(content), "VERSION_ID"@) },
        ),
        None => None,
    }
}

fn unquote(v: &Vec<char>, from: usize) -> (r: String)
    requires
        from <= v@.len(),
    ensures
        r@ == unquoted(v@.skip(from as int)),
{
    let n = v.len();
    if n - from >= 2 && (v[from] == '"' || v[from] == '\'') && v[n - 1] == v[from] {
        string_of_range(v, from + 1, n - 1)
    } else {
        string_of_range(v, from, n)
    }
}

fn find_assigned(lines: &Vec<String>, key: &str) -> (r: Option<String>)
    ensures
        r.deep_view() == assigned(lines.deep_view(), key@),
{
    let mut prefix = key.to_owned();
    prefix.push('=');
    let pat = chars_of(prefix.as_str());
    assert(pat@ == key@ + "="@) by {
        reveal_strlit("=");
    }
    let ghost all = lines.deep_view();
    let mut i = lines.len();
    assert(all.take(all.len() as int) == all);
    while i > 0
        invariant
            i <= lines@.len(),
            all == lines.deep_view(),
            pat@ == key@ + "="@,
            pat@.len() == key@.len() + 1,
            assigned(all, key@) == assigned(all.take(i as int), key@),
        decreases i,
    {
        let line = chars_of(lines[i - 1].as_str());
        assert(all.take(i as int).drop_last() == all.take(i - 1));
        assert(line@.skip(0) == line@);
        if matches_at(&line, 0, &pat) {
            return Some(unquote(&line, pat.len()));
        }
        i -= 1;
    }
    None
}

/// Reads the system inside an image from the content of its `os-release`
/// file.
pub fn parse_os_release(content: &str) -> (r: Option<Os>)
    ensures
        r.deep_view() == os_release_of(content@),
{
    let lines = split_lines(content);
    match find_assigned(&lines, "ID") {
        Some(distro) => Some(Os { distro, version: find_assigned(&lines, "VERSION_ID") }),
        None => None,
    }
}

/// The packages that every image for a format gets, unless the recipe
/// skips them: what it takes to build a package of that format.
pub open spec fn default_packages_of(target: BuildTarget) -> Seq<Seq<char>> {
    match target {
        BuildTarget::Rpm => seq!["rpm-build"@, "util-linux"@],
        BuildTarget::Deb => seq!["dpkg"@],
        BuildTarget::Gzip => seq!["tar"@],
    }
}

/// The packages that every image for a format gets.
pub fn default_packages(target: BuildTarget) -> (r: Vec<String>)
    ensures
        r.deep_view() == default_packages_of(target),
{
    let mut r: Vec<String> = Vec::new();
    match target {
        BuildTarget::Rpm => {
            r.push("rpm-build".to_owned());
            r.push("util-linux".to_owned());
        },
        BuildTarget::Deb => {
            r.push("dpkg".to_owned());
        },
        BuildTarget::Gzip => {
            r.push("tar".to_owned());
        },
    }
    r
}

/// The program that installs packages on a family of systems.
#[derive(Clone, Copy, Debug, PartialEq, Eq, Hash, Structural)]
pub enum PackageManager {
    Apt,
    Dnf,
    Yum,
    Pacman,
    Apk,
    Zypper,
}

impl PackageManager {
    /// The name of the program.
    pub open spec fn name(self) -> Seq<char> {
        match self {
            PackageManager::Apt => "apt-get"@,
            PackageManager::Dnf => "dnf"@,
            PackageManager::Yum => "yum"@,
            PackageManager::Pacman => "pacman"@,
            PackageManager::Apk => "apk"@,
            PackageManager::Zypper => "zypper"@,
        }
    }

    /// What the program is told so that it installs without asking.
    pub open spec fn install_args(self) -> Seq<char> {
        match self {
            PackageManager::Apt => "install -y"@,
            PackageManager::Dnf => "install -y"@,
            PackageManager::Yum => "install -y"@,
            PackageManager::Pacman => "-S --noconfirm"@,
            PackageManager::Apk => "add"@,
            PackageManager::Zypper => "install -y"@,
        }
    }

    /// The command that installs `packages`: the program, its arguments
    /// and the packages, with a space between each two.
    pub open spec fn install_command(self, packages: Seq<Seq<char>>) -> Seq<char> {
        self.name() + " "@ + self.install_args() + " "@ + joined_with(packages, " "@)
    }

    pub fn as_str(&self) -> (r: &'static str)
        ensures
            r@ == self.name(),
    {
        match self {
            PackageManager::Apt => "apt-get",
            PackageManager::Dnf => "dnf",
            PackageManager::Yum => "yum",
            PackageManager::Pacman => "pacman",
            PackageManager::Apk => "apk",
            PackageManager::Zypper => "zypper",
        }
    }

    /// The command that installs `packages`.
    pub fn install(&self, packages: &Vec<String>) -> (r: String)
        ensures
            r@ == self.install_command(packages.deep_view()),
    {
        let mut r = self.as_str().to_owned();
        r.append(" ");
        r.append(
            match self {
                PackageManager::Apt => "install -y",
                PackageManager::Dnf => "install -y",
                PackageManager::Yum => "install -y",
                PackageManager::Pacman => "-S --noconfirm",
                PackageManager::Apk => "add",
                PackageManager::Zypper => "install -y",
            },
        );
        r.append(" ");
        r.append(join(packages, " ").as_str());
        r
    }

    /// The failure to install packages on `image` with this program.
    pub fn failed(&self, image: &str, cause: &str) -> (r: PkgerError)
        ensures
            r@ == (PkgerErrorView::DependencyInstallFailed {
                image: image@,
                package_manager: self.name(),
                cause: cause@,
            }),
    {
        PkgerError::DependencyInstallFailed {
            image: image.to_owned(),
            package_manager: self.as_str().to_owned(),
            cause: cause.to_owned(),
        }
    }
}

/// The package manager of a distribution, by the id that the distribution
/// gives itself; none for a distribution that is not known.
pub open spec fn package_manager_of(distro: Seq<char>) -> Option<PackageManager> {
    if distro == "debian"@ || distro == "ubuntu"@ {
        Some(PackageManager::Apt)
    } else if distro == "fedora"@ {
        Some(PackageManager::Dnf)
    } else if distro == "centos"@ || distro == "rhel"@ || distro == "rocky"@ {
        Some(PackageManager::Yum)
    } else if distro == "arch"@ {
        Some(PackageManager::Pacman)
    } else if distro == "alpine"@ {
        Some(PackageManager::Apk)
    } else if distro == "opensuse"@ || distro == "sles"@ {
        Some(PackageManager::Zypper)
    } else {
        None
    }
}

/// The package manager of the system inside an image.
pub fn package_manager(os: &Os) -> (r: Option<PackageManager>)
    ensures
        r == package_manager_of(os@.distro),
{
    let distro = os.distro.as_str();
    if str_eq(distro, "debian") || str_eq(distro, "ubuntu") {
        Some(PackageManager::Apt)
    } else if str_eq(distro, "fedora") {
        Some(PackageManager::Dnf)
    } else if str_eq(distro, "centos") || str_eq(distro, "rhel") || str_eq(distro, "rocky") {
        Some(PackageManager::Yum)
    } else if str_eq(distro, "arch") {
        Some(PackageManager::Pacman)
    } else if str_eq(distro, "alpine") {
        Some(PackageManager::Apk)
    } else if str_eq(distro, "opensuse") || str_eq(distro, "sles") {
        Some(PackageManager::Zypper)
    } else {
        None
    }
}

} // verus!
