//! Recipe metadata: what a recipe says of the package it builds.
//!
//! `MetadataRep` is the metadata as the recipe file holds it, with the
//! fields that can be written in more than one shape still untyped.
//! `Metadata` is the same with every field resolved.

use crate::deps::{dependencies_of, Dependencies, DependenciesView};
use crate::error::{PkgerError, RecipeFault};
use crate::git::{git_source_of, GitSource, GitSourceView};
use crate::target::{image_targets_of, ImageTarget, ImageTargetView};
use crate::text::str_eq;
use crate::value::Value;
use vstd::prelude::*;
use vstd::std_specs::convert::FromSpecImpl;

verus! {

/// The metadata of a recipe as the recipe file holds it.
#[derive(Debug, PartialEq, Eq)]
pub struct MetadataRep {
    pub name: String,
    pub version: String,
    pub description: String,
    pub license: String,
    pub images: Vec<Value>,
    pub maintainer: Option<String>,
    pub arch: Option<String>,
    /// http/https or file system source pointing to a tar.gz or tar.xz package
    pub source: Option<String>,
    /// Git repository as source
    pub git: Option<Value>,
    /// Whether to install default dependencies before build
    pub skip_default_deps: Option<bool>,
    /// Directories to exclude when creating the package
    pub exclude: Option<Vec<String>>,
    pub group: Option<String>,
    pub build_depends: Option<Value>,
    pub depends: Option<Value>,
    pub conflicts: Option<Value>,
    pub provides: Option<Value>,
    pub deb: Option<DebRep>,
    pub rpm: Option<RpmRep>,
}

/// The DEB block of a recipe as the recipe file holds it.
#[derive(Clone, Debug, PartialEq, Eq)]
pub struct DebRep {
    pub priority: Option<String>,
}

/// What a recipe says for DEB packages only.
#[derive(Clone, Debug, PartialEq, Eq)]
pub struct DebInfo {
    pub priority: Option<String>,
}

pub struct DebInfoView {
    pub priority: Option<Seq<char>>,
}

impl View for DebInfo {
    type V = DebInfoView;

    open spec fn view(&self) -> DebInfoView {
        DebInfoView { priority: self.priority.deep_view() }
    }
}

impl DeepView for DebInfo {
    type V = DebInfoView;

    open spec fn deep_view(&self) -> DebInfoView {
        self@
    }
}

impl From<DebRep> for DebInfo {
    fn from(rep: DebRep) -> (r: DebInfo) {
        DebInfo { priority: rep.priority }
    }
}

impl FromSpecImpl<DebRep> for DebInfo {
    open spec fn obeys_from_spec() -> bool {
        true
    }

    open spec fn from_spec(rep: DebRep) -> DebInfo {
        DebInfo { priority: rep.priority }
    }
}

/// The RPM block of a recipe as the recipe file holds it.
#[derive(Debug, PartialEq, Eq)]
pub struct RpmRep {
    pub obsoletes: Option<Value>,
    pub release: Option<String>,
    pub epoch: Option<String>,
    pub vendor: Option<String>,
    pub icon: Option<String>,
    pub summary: Option<String>,
    pub pre_script: Option<String>,
    pub post_script: Option<String>,
    pub preun_script: Option<String>,
    pub postun_script: Option<String>,
    pub config_noreplace: Option<String>,
}

/// What a recipe says for RPM packages only.
#[derive(Clone, Debug, PartialEq, Eq)]
pub struct RpmInfo {
    pub obsoletes: Option<Dependencies>,
    pub release: Option<String>,
    pub epoch: Option<String>,
    pub vendor: Option<String>,
    pub icon: Option<String>,
    pub summary: Option<String>,
    pub pre_script: Option<String>,
    pub post_script: Option<String>,
    pub preun_script: Option<String>,
    pub postun_script: Option<String>,
    pub config_noreplace: Option<String>,
}

pub struct RpmInfoView {
    pub obsoletes: Option<DependenciesView>,
    pub release: Option<Seq<char>>,
    pub epoch: Option<Seq<char>>,
    pub vendor: Option<Seq<char>>,
    pub icon: Option<Seq<char>>,
    pub summary: Option<Seq<char>>,
    pub pre_script: Option<Seq<char>>,
    pub post_script: Option<Seq<char>>,
    pub preun_script: Option<Seq<char>>,
    pub postun_script: Option<Seq<char>>,
    pub config_noreplace: Option<Seq<char>>,
}

impl View for RpmInfo {
    type V = RpmInfoView;

    open spec fn view(&self) -> RpmInfoView {
        RpmInfoView {
            obsoletes: self.obsoletes.deep_view(),
            release: self.release.deep_view(),
            epoch: self.epoch.deep_view(),
            vendor: self.vendor.deep_view(),
            icon: self.icon.deep_view(),
            summary: self.summary.deep_view(),
            pre_script: self.pre_script.deep_view(),
            post_script: self.post_script.deep_view(),
            preun_script: self.preun_script.deep_view(),
            postun_script: self.postun_script.deep_view(),
            config_noreplace: self.config_noreplace.deep_view(),
        }
    }
}

impl DeepView for RpmInfo {
    type V = RpmInfoView;

    open spec fn deep_view(&self) -> RpmInfoView {
        self@
    }
}

/// The declaration behind an optional untyped field: nothing for an absent
/// field, the declaration for one that is well formed, and `None` for one
/// that is not.
pub open spec fn optional_dependencies(value: Option<Value>) -> Option<Option<DependenciesView>> {
    match value {
        None => Some(None),
        Some(v) => match dependencies_of(v) {
            Some(d) => Some(Some(d)),
            None => None,
        },
    }
}

fn read_dependencies(value: &Option<Value>) -> (r: Option<Option<Dependencies>>)
    ensures
        r.deep_view() == optional_dependencies(*value),
{
    match value {
        None => Some(None),
        Some(v) => match Dependencies::from_value(v) {
            Some(d) => Some(Some(d)),
            None => None,
        },
    }
}

impl RpmInfo {
    /// What `try_from` returns: the same block with `obsoletes` resolved, or
    /// the fault of an `obsoletes` that is no dependency declaration.
    pub open spec fn converted(rep: RpmRep) -> Result<RpmInfoView, RecipeFault> {
        match optional_dependencies(rep.obsoletes) {
            None => Err(RecipeFault::Obsoletes),
            Some(obsoletes) => Ok(
                RpmInfoView {
                    obsoletes,
                    release: rep.release.deep_view(),
                    epoch: rep.epoch.deep_view(),
                    vendor: rep.vendor.deep_view(),
                    icon: rep.icon.deep_view(),
                    summary: rep.summary.deep_view(),
                    pre_script: rep.pre_script.deep_view(),
                    post_script: rep.post_script.deep_view(),
                    preun_script: rep.preun_script.deep_view(),
                    postun_script: rep.postun_script.deep_view(),
                    config_noreplace: rep.config_noreplace.deep_view(),
                },
            ),
        }
    }

    /// Resolves the RPM block of a recipe.
    pub fn try_from(rep: RpmRep) -> (r: Result<RpmInfo, PkgerError>)
        ensures
            match r {
                Ok(info) => Self::converted(rep) == Ok::<RpmInfoView, RecipeFault>(info@),
                Err(e) => Self::converted(rep) matches Err(fault) && e == PkgerError::RecipeInvalid(
                    fault,
                ),
            },
    {
        let obsoletes = match read_dependencies(&rep.obsoletes) {
            Some(obsoletes) => obsoletes,
            None => {
                return Err(PkgerError::RecipeInvalid(RecipeFault::Obsoletes));
            },
        };
        Ok(
            RpmInfo {
                obsoletes,
                release: rep.release,
                epoch: rep.epoch,
                vendor: rep.vendor,
                icon: rep.icon,
                summary: rep.summary,
                pre_script: rep.pre_script,
                post_script: rep.post_script,
                preun_script: rep.preun_script,
                postun_script: rep.postun_script,
                config_noreplace: rep.config_noreplace,
            },
        )
    }
}

/// The metadata of a recipe, with every field resolved.
#[derive(Clone, Debug, PartialEq, Eq)]
pub struct Metadata {
    pub name: String,
    pub version: String,
    pub description: String,
    pub license: String,
    pub images: Vec<ImageTarget>,
    pub maintainer: Option<String>,
    pub arch: Option<String>,
    /// http/https or file system source pointing to a tar.gz or tar.xz package
    pub source: Option<String>,
    /// Git repository as source
    pub git: Option<GitSource>,
    /// Whether default dependencies should be installed before the build
    pub skip_default_deps: Option<bool>,
    /// Directories to exclude when creating the package
    pub exclude: Option<Vec<String>>,
    /// Works as section in DEB and group in RPM
    pub group: Option<String>,
    pub build_depends: Option<Dependencies>,
    pub depends: Option<Dependencies>,
    pub conflicts: Option<Dependencies>,
    pub provides: Option<Dependencies>,
    pub deb: Option<DebInfo>,
    pub rpm: Option<RpmInfo>,
}

pub struct MetadataView {
    pub name: Seq<char>,
    pub version: Seq<char>,
    pub description: Seq<char>,
    pub license: Seq<char>,
    pub images: Seq<ImageTargetView>,
    pub maintainer: Option<Seq<char>>,
    pub arch: Option<Seq<char>>,
    pub source: Option<Seq<char>>,
    pub git: Option<GitSourceView>,
    pub skip_default_deps: Option<bool>,
    pub exclude: Option<Seq<Seq<char>>>,
    pub group: Option<Seq<char>>,
    pub build_depends: Option<DependenciesView>,
    pub depends: Option<DependenciesView>,
    pub conflicts: Option<DependenciesView>,
    pub provides: Option<DependenciesView>,
    pub deb: Option<DebInfoView>,
    pub rpm: Option<RpmInfoView>,
}

impl View for Metadata {
    type V = MetadataView;

    open spec fn view(&self) -> MetadataView {
        MetadataView {
            name: self.name@,
            version: self.version@,
            description: self.description@,
            license: self.license@,
            images: self.images.deep_view(),
            maintainer: self.maintainer.deep_view(),
            arch: self.arch.deep_view(),
            source: self.source.deep_view(),
            git: self.git.deep_view(),
            skip_default_deps: self.skip_default_deps,
            exclude: self.exclude.deep_view(),
            group: self.group.deep_view(),
            build_depends: self.build_depends.deep_view(),
            depends: self.depends.deep_view(),
            conflicts: self.conflicts.deep_view(),
            provides: self.provides.deep_view(),
            deb: self.deb.deep_view(),
            rpm: self.rpm.deep_view(),
        }
    }
}

impl DeepView for Metadata {
    type V = MetadataView;

    open spec fn deep_view(&self) -> MetadataView {
        self@
    }
}

/// The architecture name a DEB package carries for the recipe's `arch`.
pub open spec fn deb_arch_of(arch: Option<Seq<char>>) -> Seq<char> {
    match arch {
        None => "all"@,
        Some(a) => if a == "amd64"@ || a == "x86_64"@ {
            "amd64"@
        } else if a == "x86"@ || a == "i386"@ {
            "i386"@
        } else {
            a
        },
    }
}

/// The architecture name an RPM package carries for the recipe's `arch`.
pub open spec fn rpm_arch_of(arch: Option<Seq<char>>) -> Seq<char> {
    match arch {
        None => "noarch"@,
        Some(a) => if a == "amd64"@ || a == "x86_64"@ {
            "x86_64"@
        } else if a == "x86"@ || a == "i386"@ {
            "x86"@
        } else {
            a
        },
    }
}

/// The git source behind an optional untyped field.
pub open spec fn optional_git(value: Option<Value>) -> Option<Option<GitSourceView>> {
    match value {
        None => Some(None),
        Some(v) => match git_source_of(v) {
            Some(g) => Some(Some(g)),
            None => None,
        },
    }
}

/// The first fault of a recipe, in the order in which the fields are
/// checked; `None` for a recipe that loads.
pub open spec fn first_fault(rep: MetadataRep) -> Option<RecipeFault> {
    if rep.name@.len() == 0 {
        Some(RecipeFault::EmptyName)
    } else if rep.version@.len() == 0 {
        Some(RecipeFault::EmptyVersion)
    } else if rep.images@.len() == 0 {
        Some(RecipeFault::NoImages)
    } else if optional_dependencies(rep.build_depends) is None {
        Some(RecipeFault::BuildDepends)
    } else if optional_dependencies(rep.depends) is None {
        Some(RecipeFault::Depends)
    } else if optional_dependencies(rep.conflicts) is None {
        Some(RecipeFault::Conflicts)
    } else if optional_dependencies(rep.provides) is None {
        Some(RecipeFault::Provides)
    } else if image_targets_of(rep.images@) is None {
        Some(RecipeFault::Image)
    } else if optional_git(rep.git) is None {
        Some(RecipeFault::Git)
    } else if rep.rpm matches Some(rpm) && optional_dependencies(rpm.obsoletes) is None {
        Some(RecipeFault::Obsoletes)
    } else {
        None
    }
}

impl MetadataView {
    /// What holds of every loaded recipe: it has a name, a version and at
    /// least one image.
    pub open spec fn wf(self) -> bool {
        self.name.len() > 0 && self.version.len() > 0 && self.images.len() > 0
    }

    /// The release of the RPM package: the one the recipe gives, else `0`.
    pub open spec fn rpm_release(self) -> Seq<char> {
        match self.rpm {
            Some(rpm) => match rpm.release {
                Some(release) => release,
                None => "0"@,
            },
            None => "0"@,
        }
    }
}

impl Metadata {
    /// The metadata a faultless recipe resolves to.
    pub open spec fn resolved(rep: MetadataRep) -> MetadataView {
        MetadataView {
            name: rep.name@,
            version: rep.version@,
            description: rep.description@,
            license: rep.license@,
            images: image_targets_of(rep.images@).unwrap(),
            maintainer: rep.maintainer.deep_view(),
            arch: rep.arch.deep_view(),
            source: rep.source.deep_view(),
            git: optional_git(rep.git).unwrap(),
            skip_default_deps: rep.skip_default_deps,
            exclude: rep.exclude.deep_view(),
            group: rep.group.deep_view(),
            build_depends: optional_dependencies(rep.build_depends).unwrap(),
            depends: optional_dependencies(rep.depends).unwrap(),
            conflicts: optional_dependencies(rep.conflicts).unwrap(),
            provides: optional_dependencies(rep.provides).unwrap(),
            deb: match rep.deb {
                Some(deb) => Some(DebInfoView { priority: deb.priority.deep_view() }),
                None => None,
            },
            rpm: match rep.rpm {
                Some(rpm) => Some(RpmInfo::converted(rpm).unwrap()),
                None => None,
            },
        }
    }

    /// Returns the name of `arch` appropriate for DEB build
    pub fn deb_arch(&self) -> (r: &str)
        ensures
            r@ == deb_arch_of(self@.arch),
    {
        match &self.arch {
            Some(arch) => {
                let arch = arch.as_str();
                if str_eq(arch, "amd64") || str_eq(arch, "x86_64") {
                    "amd64"
                } else if str_eq(arch, "x86") || str_eq(arch, "i386") {
                    "i386"
                } else {
                    arch
                }
            },
            None => "all",
        }
    }

    /// Returns the name of `arch` appropriate for RPM build
    pub fn rpm_arch(&self) -> (r: &str)
        ensures
            r@ == rpm_arch_of(self@.arch),
    {
        match &self.arch {
            Some(arch) => {
                let arch = arch.as_str();
                if str_eq(arch, "amd64") || str_eq(arch, "x86_64") {
                    "x86_64"
                } else if str_eq(arch, "x86") || str_eq(arch, "i386") {
                    "x86"
                } else {
                    arch
                }
            },
            None => "noarch",
        }
    }

    /// Returns the RPM release if the value is available, otherwise returns "0"
    pub fn rpm_release(&self) -> (r: &str)
        ensures
            r@ == self@.rpm_release(),
    {
        if let Some(rpm) = &self.rpm {
            if let Some(release) = &rpm.release {
                return release.as_str();
            }
        }
        "0"
    }

    /// Resolves the metadata of a recipe. A recipe without a name, a version
    /// or an image is refused, and so is one with a field that cannot be
    /// resolved; the error names the first such fault.
    pub fn try_from(rep: MetadataRep) -> (r: Result<Metadata, PkgerError>)
        ensures
            match r {
                Ok(m) => first_fault(rep) is None && m@ == Self::resolved(rep) && m@.wf(),
                Err(e) => first_fault(rep) matches Some(fault) && e == PkgerError::RecipeInvalid(
                    fault,
                ),
            },
    {
        if rep.name.as_str().is_empty() {
            return Err(PkgerError::RecipeInvalid(RecipeFault::EmptyName));
        }
        if rep.version.as_str().is_empty() {
            return Err(PkgerError::RecipeInvalid(RecipeFault::EmptyVersion));
        }
        if rep.images.len() == 0 {
            return Err(PkgerError::RecipeInvalid(RecipeFault::NoImages));
        }
        let build_depends = match read_dependencies(&rep.build_depends) {
            Some(deps) => deps,
            None => {
                return Err(PkgerError::RecipeInvalid(RecipeFault::BuildDepends));
            },
        };
        let depends = match read_dependencies(&rep.depends) {
            Some(deps) => deps,
            None => {
                return Err(PkgerError::RecipeInvalid(RecipeFault::Depends));
            },
        };
        let conflicts = match read_dependencies(&rep.conflicts) {
            Some(deps) => deps,
            None => {
                return Err(PkgerError::RecipeInvalid(RecipeFault::Conflicts));
            },
        };
        let provides = match read_dependencies(&rep.provides) {
            Some(deps) => deps,
            None => {
                return Err(PkgerError::RecipeInvalid(RecipeFault::Provides));
            },
        };
        let images = match ImageTarget::list_from_values(&rep.images) {
            Some(images) => images,
            None => {
                return Err(PkgerError::RecipeInvalid(RecipeFault::Image));
            },
        };
        let git = match &rep.git {
            None => None,
            Some(value) => match GitSource::from_value(value) {
                Some(git) => Some(git),
                None => {
                    return Err(PkgerError::RecipeInvalid(RecipeFault::Git));
                },
            },
        };
        let deb = match rep.deb {
            Some(deb) => Some(DebInfo::from(deb)),
            None => None,
        };
        let rpm = match rep.rpm {
            Some(rpm) => match RpmInfo::try_from(rpm) {
                Ok(info) => Some(info),
                Err(e) => {
                    return Err(e);
                },
            },
            None => None,
        };
        Ok(
            Metadata {
                name: rep.name,
                version: rep.version,
                description: rep.description,
                license: rep.license,
                images,
                maintainer: rep.maintainer,
                arch: rep.arch,
                source: rep.source,
                git,
                skip_default_deps: rep.skip_default_deps,
                exclude: rep.exclude,
                group: rep.group,
                build_depends,
                depends,
                conflicts,
                provides,
                deb,
                rpm,
            },
        )
    }
}

} // verus!
