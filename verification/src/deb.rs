//! The assembler of DEB packages.

use crate::assemble::{
    artifact_name, deb_file_name, exec_step, planned_exec, PlannedBuild, PlannedBuildView,
    PlannedStep, PlannedStepView,
};
use crate::deps::{resolve_or_none, resolved_or_none};
use crate::metadata::{deb_arch_of, Metadata, MetadataView};
use crate::session::{Action, ActionView};
use crate::target::BuildTarget;
use crate::text::{
    copy_text, field, join, join_path, joined, joined_with, optional_field, push_field,
    push_optional_field,
};
use vstd::prelude::*;
use vstd::string::*;

verus! {

/// What the control file of a package says.
#[derive(Clone, Debug, PartialEq, Eq)]
pub struct DebControl {
    pub package: String,
    pub version: String,
    pub architecture: String,
    pub maintainer: Option<String>,
    pub section: Option<String>,
    pub priority: Option<String>,
    pub depends: Vec<String>,
    pub conflicts: Vec<String>,
    pub provides: Vec<String>,
    pub description: String,
}

pub struct DebControlView {
    pub package: Seq<char>,
    pub version: Seq<char>,
    pub architecture: Seq<char>,
    pub maintainer: Option<Seq<char>>,
    pub section: Option<Seq<char>>,
    pub priority: Option<Seq<char>>,
    pub depends: Seq<Seq<char>>,
    pub conflicts: Seq<Seq<char>>,
    pub provides: Seq<Seq<char>>,
    pub description: Seq<char>,
}

impl View for DebControl {
    type V = DebControlView;

    open spec fn view(&self) -> DebControlView {
        DebControlView {
            package: self.package@,
            version: self.version@,
            architecture: self.architecture@,
            maintainer: self.maintainer.deep_view(),
            section: self.section.deep_view(),
            priority: self.priority.deep_view(),
            depends: self.depends.deep_view(),
            conflicts: self.conflicts.deep_view(),
            provides: self.provides.deep_view(),
            description: self.description@,
        }
    }
}

/// The line of a list of packages: the names with a comma and a space
/// between them; no line for an empty list.
pub open spec fn list_field(key: Seq<char>, names: Seq<Seq<char>>) -> Seq<char> {
    if names.len() == 0 {
        Seq::empty()
    } else {
        field(key, joined_with(names, ", "@))
    }
}

impl DebControlView {
    /// The control file.
    pub open spec fn rendered(self) -> Seq<char> {
        field("Package"@, self.package) + field("Version"@, self.version) + field(
            "Architecture"@,
            self.architecture,
        ) + optional_field("Maintainer"@, self.maintainer) + optional_field(
            "Section"@,
            self.section,
        ) + optional_field("Priority"@, self.priority) + list_field("Depends"@, self.depends)
            + list_field("Conflicts"@, self.conflicts) + list_field("Provides"@, self.provides)
            + field("Description"@, self.description)
    }
}

/// The control file of a package: the recipe's metadata with the
/// architecture as DEB names it, the group as the section, and the
/// dependency lists resolved for the image.
pub open spec fn deb_control_of(meta: MetadataView, image: Seq<char>) -> DebControlView {
    DebControlView {
        package: meta.name,
        version: meta.version,
        architecture: deb_arch_of(meta.arch),
        maintainer: meta.maintainer,
        section: meta.group,
        priority: match meta.deb {
            Some(deb) => deb.priority,
            None => None,
        },
        depends: resolved_or_none(meta.depends, image),
        conflicts: resolved_or_none(meta.conflicts, image),
        provides: resolved_or_none(meta.provides, image),
        description: meta.description,
    }
}

fn push_list_field(out: &mut String, key: &str, names: &Vec<String>)
    ensures
        final(out)@ == old(out)@ + list_field(key@, names.deep_view()),
{
    if names.len() > 0 {
        let list = join(names, ", ");
        push_field(out, key, list.as_str());
    }
}

impl DebControl {
    /// The text of the control file.
    pub fn render(&self) -> (r: String)
        ensures
            r@ == self@.rendered(),
    {
        let mut r = String::new();
        push_field(&mut r, "Package", self.package.as_str());
        push_field(&mut r, "Version", self.version.as_str());
        push_field(&mut r, "Architecture", self.architecture.as_str());
        push_optional_field(&mut r, "Maintainer", &self.maintainer);
        push_optional_field(&mut r, "Section", &self.section);
        push_optional_field(&mut r, "Priority", &self.priority);
        push_list_field(&mut r, "Depends", &self.depends);
        push_list_field(&mut r, "Conflicts", &self.conflicts);
        push_list_field(&mut r, "Provides", &self.provides);
        push_field(&mut r, "Description", self.description.as_str());
        r
    }
}

impl Metadata {
    /// The control file of the package for one image.
    pub fn as_deb_control(&self, image: &str) -> (r: DebControl)
        ensures
            r@ == deb_control_of(self@, image@),
    {
        DebControl {
            package: self.name.clone(),
            version: self.version.clone(),
            architecture: self.deb_arch().to_owned(),
            maintainer: copy_text(&self.maintainer),
            section: copy_text(&self.group),
            priority: match &self.deb {
                Some(deb) => copy_text(&deb.priority),
                None => None,
            },
            depends: resolve_or_none(&self.depends, image),
            conflicts: resolve_or_none(&self.conflicts, image),
            provides: resolve_or_none(&self.provides, image),
            description: self.description.clone(),
        }
    }
}

/// The staging root of a package inside the container.
pub open spec fn staging_root(meta: MetadataView) -> Seq<char> {
    "/tmp/"@ + meta.name + "-"@ + meta.version
}

/// The directory of the control files under the staging root.
pub open spec fn control_dir(meta: MetadataView) -> Seq<char> {
    joined(staging_root(meta), "DEBIAN"@)
}

/// The directory inside the container in which the package is left.
pub open spec fn deb_dir(meta: MetadataView) -> Seq<char> {
    staging_root(meta) + "-deb"@
}

/// The archive in which the control file is uploaded.
pub open spec fn control_tar(meta: MetadataView) -> Seq<char> {
    staging_root(meta) + "-control.tar"@
}

/// The steps of a DEB build: make the staging root with its control
/// directory, copy the install tree into it, upload and unpack the control
/// file, build the package, and bring it to the host.
pub open spec fn deb_steps(
    meta: MetadataView,
    image: Seq<char>,
    container_out_dir: Seq<char>,
    output_dir: Seq<char>,
) -> Seq<PlannedStepView> {
    seq![
        PlannedStepView {
            action: ActionView::CreateDirs(seq![control_dir(meta), deb_dir(meta)]),
            context: Some("failed to create directories"@),
        },
        exec_step(
            "cp -rv . "@ + staging_root(meta),
            Some(container_out_dir),
            "failed to copy the install tree"@,
        ),
        PlannedStepView {
            action: ActionView::Upload {
                path: control_tar(meta),
                entry: "./control"@,
                content: deb_control_of(meta, image).rendered(),
            },
            context: Some("failed to copy archive with control file"@),
        },
        exec_step(
            "tar -xvf "@ + control_tar(meta) + " -C "@ + control_dir(meta),
            None,
            "failed to extract the control file"@,
        ),
        exec_step(
            "dpkg-deb --build --root-owner-group "@ + staging_root(meta) + " "@ + joined(
                deb_dir(meta),
                deb_file_name(meta),
            ),
            None,
            "failed to build deb package"@,
        ),
        PlannedStepView {
            action: ActionView::Download { from: deb_dir(meta), to: output_dir },
            context: Some("failed to download files"@),
        },
    ]
}

/// Plans the build of a DEB package of `meta` on `image`.
pub fn deb_build(meta: &Metadata, image: &str, container_out_dir: &str, output_dir: &str) -> (r:
    PlannedBuild)
    ensures
        r@ == PlannedBuildView::start(
            BuildTarget::Deb,
            deb_steps(meta@, image@, container_out_dir@, output_dir@),
            joined(output_dir@, deb_file_name(meta@)),
        ),
{
    let file = artifact_name(meta, BuildTarget::Deb);
    let mut root = "/tmp/".to_owned();
    root.append(meta.name.as_str());
    root.append("-");
    root.append(meta.version.as_str());
    let control_dir = join_path(root.as_str(), "DEBIAN");
    let mut package_dir = root.clone();
    package_dir.append("-deb");
    let mut control_tar = root.clone();
    control_tar.append("-control.tar");
    let mut dirs: Vec<String> = Vec::new();
    dirs.push(control_dir.clone());
    dirs.push(package_dir.clone());
    assert(dirs.deep_view() == seq![self::control_dir(meta@), deb_dir(meta@)]);
    let mut copy = "cp -rv . ".to_owned();
    copy.append(root.as_str());
    let mut unpack = "tar -xvf ".to_owned();
    unpack.append(control_tar.as_str());
    unpack.append(" -C ");
    unpack.append(control_dir.as_str());
    let mut build = "dpkg-deb --build --root-owner-group ".to_owned();
    build.append(root.as_str());
    build.append(" ");
    build.append(join_path(package_dir.as_str(), file.as_str()).as_str());
    let mut steps: Vec<PlannedStep> = Vec::new();
    steps.push(
        PlannedStep {
            action: Action::CreateDirs(dirs),
            context: Some("failed to create directories".to_owned()),
        },
    );
    steps.push(planned_exec(copy, Some(container_out_dir), "failed to copy the install tree"));
    steps.push(
        PlannedStep {
            action: Action::Upload {
                path: control_tar,
                entry: "./control".to_owned(),
                content: meta.as_deb_control(image).render(),
            },
            context: Some("failed to copy archive with control file".to_owned()),
        },
    );
    steps.push(planned_exec(unpack, None, "failed to extract the control file"));
    steps.push(planned_exec(build, None, "failed to build deb package"));
    steps.push(
        PlannedStep {
            action: Action::Download { from: package_dir, to: output_dir.to_owned() },
            context: Some("failed to download files".to_owned()),
        },
    );
    assert(steps.deep_view() == deb_steps(meta@, image@, container_out_dir@, output_dir@));
    PlannedBuild::new(BuildTarget::Deb, steps, join_path(output_dir, file.as_str()))
}

} // verus!
