//! The spec file from which `rpmbuild` builds a package.

use crate::deps::{resolve_or_none, resolved_or_none};
use crate::metadata::{rpm_arch_of, Metadata, MetadataView, RpmInfoView};
use crate::text::{
    append_names, copy_text, copy_texts, decimal, field, optional_field, push_decimal, push_field,
    push_optional_field,
};
use vstd::prelude::*;
use vstd::string::*;

verus! {

/// Everything a spec file says.
#[derive(Clone, Debug, PartialEq, Eq)]
pub struct RpmSpec {
    pub name: String,
    pub version: String,
    pub release: String,
    pub epoch: Option<String>,
    pub summary: String,
    pub license: String,
    pub vendor: Option<String>,
    pub icon: Option<String>,
    pub group: Option<String>,
    pub packager: Option<String>,
    pub build_arch: String,
    pub sources: Vec<String>,
    pub requires: Vec<String>,
    pub provides: Vec<String>,
    pub conflicts: Vec<String>,
    pub obsoletes: Vec<String>,
    pub description: String,
    pub pre_script: Option<String>,
    pub post_script: Option<String>,
    pub preun_script: Option<String>,
    pub postun_script: Option<String>,
    pub config_noreplace: Option<String>,
    /// The entries of the install tree that the package owns, each relative
    /// to the root of the tree.
    pub files: Vec<String>,
}

pub struct RpmSpecView {
    pub name: Seq<char>,
    pub version: Seq<char>,
    pub release: Seq<char>,
    pub epoch: Option<Seq<char>>,
    pub summary: Seq<char>,
    pub license: Seq<char>,
    pub vendor: Option<Seq<char>>,
    pub icon: Option<Seq<char>>,
    pub group: Option<Seq<char>>,
    pub packager: Option<Seq<char>>,
    pub build_arch: Seq<char>,
    pub sources: Seq<Seq<char>>,
    pub requires: Seq<Seq<char>>,
    pub provides: Seq<Seq<char>>,
    pub conflicts: Seq<Seq<char>>,
    pub obsoletes: Seq<Seq<char>>,
    pub description: Seq<char>,
    pub pre_script: Option<Seq<char>>,
    pub post_script: Option<Seq<char>>,
    pub preun_script: Option<Seq<char>>,
    pub postun_script: Option<Seq<char>>,
    pub config_noreplace: Option<Seq<char>>,
    pub files: Seq<Seq<char>>,
}

impl View for RpmSpec {
    type V = RpmSpecView;

    open spec fn view(&self) -> RpmSpecView {
        RpmSpecView {
            name: self.name@,
            version: self.version@,
            release: self.release@,
            epoch: self.epoch.deep_view(),
            summary: self.summary@,
            license: self.license@,
            vendor: self.vendor.deep_view(),
            icon: self.icon.deep_view(),
            group: self.group.deep_view(),
            packager: self.packager.deep_view(),
            build_arch: self.build_arch@,
            sources: self.sources.deep_view(),
            requires: self.requires.deep_view(),
            provides: self.provides.deep_view(),
            conflicts: self.conflicts.deep_view(),
            obsoletes: self.obsoletes.deep_view(),
            description: self.description@,
            pre_script: self.pre_script.deep_view(),
            post_script: self.post_script.deep_view(),
            preun_script: self.preun_script.deep_view(),
            postun_script: self.postun_script.deep_view(),
            config_noreplace: self.config_noreplace.deep_view(),
            files: self.files.deep_view(),
        }
    }
}

/// One header line with the same key for each value.
pub open spec fn fields(key: Seq<char>, values: Seq<Seq<char>>) -> Seq<char>
    decreases values.len(),
{
    if values.len() == 0 {
        Seq::empty()
    } else {
        fields(key, values.drop_last()) + field(key, values.last())
    }
}

/// The header lines of the sources: `Source0`, `Source1` and so on.
pub open spec fn source_fields(sources: Seq<Seq<char>>) -> Seq<char>
    decreases sources.len(),
{
    if sources.len() == 0 {
        Seq::empty()
    } else {
        source_fields(sources.drop_last()) + field(
            "Source"@ + decimal((sources.len() - 1) as nat),
            sources.last(),
        )
    }
}

/// The install commands that unpack the first `n` sources into the build
/// root.
pub open spec fn unpack_lines(n: nat) -> Seq<char>
    decreases n,
{
    if n == 0 {
        Seq::empty()
    } else {
        unpack_lines((n - 1) as nat) + "tar xvf %{SOURCE"@ + decimal((n - 1) as nat)
            + "} -C %{buildroot}\n"@
    }
}

/// A scriptlet section, where the recipe has the script.
pub open spec fn scriptlet(section: Seq<char>, body: Option<Seq<char>>) -> Seq<char> {
    match body {
        Some(b) => section + "\n"@ + b + "\n\n"@,
        None => Seq::empty(),
    }
}

/// The lines of the files section: each entry as a path from the root.
pub open spec fn file_lines(entries: Seq<Seq<char>>) -> Seq<char>
    decreases entries.len(),
{
    if entries.len() == 0 {
        Seq::empty()
    } else {
        file_lines(entries.drop_last()) + "/"@ + entries.last() + "\n"@
    }
}

impl RpmSpecView {
    /// The header of the spec file.
    pub open spec fn preamble(self) -> Seq<char> {
        field("Name"@, self.name) + field("Version"@, self.version) + field(
            "Release"@,
            self.release,
        ) + optional_field("Epoch"@, self.epoch) + field("Summary"@, self.summary) + field(
            "License"@,
            self.license,
        ) + optional_field("Vendor"@, self.vendor) + optional_field("Icon"@, self.icon)
            + optional_field("Group"@, self.group) + optional_field("Packager"@, self.packager)
            + field("BuildArch"@, self.build_arch) + source_fields(self.sources) + fields(
            "Requires"@,
            self.requires,
        ) + fields("Provides"@, self.provides) + fields("Conflicts"@, self.conflicts) + fields(
            "Obsoletes"@,
            self.obsoletes,
        )
    }

    /// The description and the build sections. The install section unpacks
    /// every source into the build root.
    pub open spec fn body(self) -> Seq<char> {
        "\n%description\n"@ + self.description
            + "\n\n%prep\n\n%build\n\n%install\nmkdir -p %{buildroot}\n"@ + unpack_lines(
            self.sources.len(),
        ) + "\n"@
    }

    /// The scriptlets that the recipe gives.
    pub open spec fn scriptlets(self) -> Seq<char> {
        scriptlet("%pre"@, self.pre_script) + scriptlet("%post"@, self.post_script) + scriptlet(
            "%preun"@,
            self.preun_script,
        ) + scriptlet("%postun"@, self.postun_script)
    }

    /// The files section.
    pub open spec fn files_section(self) -> Seq<char> {
        "%files\n"@ + (match self.config_noreplace {
            Some(c) => "%config(noreplace) "@ + c + "\n"@,
            None => Seq::empty(),
        }) + file_lines(self.files)
    }

    /// The whole spec file.
    pub open spec fn rendered(self) -> Seq<char> {
        self.preamble() + self.body() + self.scriptlets() + self.files_section()
    }
}

fn push_fields(out: &mut String, key: &str, values: &Vec<String>)
    ensures
        final(out)@ == old(out)@ + fields(key@, values.deep_view()),
{
    let ghost all = values.deep_view();
    let mut i: usize = 0;
    while i < values.len()
        invariant
            i <= values@.len(),
            all == values.deep_view(),
            out@ == old(out)@ + fields(key@, all.take(i as int)),
        decreases values@.len() - i,
    {
        assert(all.take(i + 1).drop_last() == all.take(i as int));
        push_field(out, key, values[i].as_str());
        i += 1;
    }
    assert(all.take(all.len() as int) == all);
}

fn push_source_fields(out: &mut String, sources: &Vec<String>)
    ensures
        final(out)@ == old(out)@ + source_fields(sources.deep_view()),
{
    let ghost all = sources.deep_view();
    let mut i: usize = 0;
    while i < sources.len()
        invariant
            i <= sources@.len(),
            all == sources.deep_view(),
            out@ == old(out)@ + source_fields(all.take(i as int)),
        decreases sources@.len() - i,
    {
        assert(all.take(i + 1).drop_last() == all.take(i as int));
        let mut key = String::new();
        key.append("Source");
        push_decimal(&mut key, i as u64);
        push_field(out, key.as_str(), sources[i].as_str());
        i += 1;
    }
    assert(all.take(all.len() as int) == all);
}

fn push_unpack_lines(out: &mut String, n: usize)
    ensures
        final(out)@ == old(out)@ + unpack_lines(n as nat),
{
    let mut i: usize = 0;
    while i < n
        invariant
            i <= n,
            out@ == old(out)@ + unpack_lines(i as nat),
        decreases n - i,
    {
        out.append("tar xvf %{SOURCE");
        push_decimal(out, i as u64);
        out.append("} -C %{buildroot}\n");
        i += 1;
    }
}

fn push_scriptlet(out: &mut String, section: &str, body: &Option<String>)
    ensures
        final(out)@ == old(out)@ + scriptlet(section@, body.deep_view()),
{
    if let Some(b) = body {
        out.append(section);
        out.append("\n");
        out.append(b.as_str());
        out.append("\n\n");
    }
}

fn push_file_lines(out: &mut String, entries: &Vec<String>)
    ensures
        final(out)@ == old(out)@ + file_lines(entries.deep_view()),
{
    let ghost all = entries.deep_view();
    let mut i: usize = 0;
    while i < entries.len()
        invariant
            i <= entries@.len(),
            all == entries.deep_view(),
            out@ == old(out)@ + file_lines(all.take(i as int)),
        decreases entries@.len() - i,
    {
        assert(all.take(i + 1).drop_last() == all.take(i as int));
        out.append("/");
        out.append(entries[i].as_str());
        out.append("\n");
        i += 1;
    }
    assert(all.take(all.len() as int) == all);
}

impl RpmSpec {
    fn preamble(&self) -> (r: String)
        ensures
            r@ == self@.preamble(),
    {
        let mut r = String::new();
        push_field(&mut r, "Name", self.name.as_str());
        push_field(&mut r, "Version", self.version.as_str());
        push_field(&mut r, "Release", self.release.as_str());
        push_optional_field(&mut r, "Epoch", &self.epoch);
        push_field(&mut r, "Summary", self.summary.as_str());
        push_field(&mut r, "License", self.license.as_str());
        push_optional_field(&mut r, "Vendor", &self.vendor);
        push_optional_field(&mut r, "Icon", &self.icon);
        push_optional_field(&mut r, "Group", &self.group);
        push_optional_field(&mut r, "Packager", &self.packager);
        push_field(&mut r, "BuildArch", self.build_arch.as_str());
        push_source_fields(&mut r, &self.sources);
        push_fields(&mut r, "Requires", &self.requires);
        push_fields(&mut r, "Provides", &self.provides);
        push_fields(&mut r, "Conflicts", &self.conflicts);
        push_fields(&mut r, "Obsoletes", &self.obsoletes);
        r
    }

    fn body(&self) -> (r: String)
        ensures
            r@ == self@.body(),
    {
        let mut r = String::new();
        r.append("\n%description\n");
        r.append(self.description.as_str());
        r.append("\n\n%prep\n\n%build\n\n%install\nmkdir -p %{buildroot}\n");
        push_unpack_lines(&mut r, self.sources.len());
        r.append("\n");
        r
    }

    fn scriptlets(&self) -> (r: String)
        ensures
            r@ == self@.scriptlets(),
    {
        let mut r = String::new();
        push_scriptlet(&mut r, "%pre", &self.pre_script);
        push_scriptlet(&mut r, "%post", &self.post_script);
        push_scriptlet(&mut r, "%preun", &self.preun_script);
        push_scriptlet(&mut r, "%postun", &self.postun_script);
        r
    }

    fn files_section(&self) -> (r: String)
        ensures
            r@ == self@.files_section(),
    {
        let mut r = String::new();
        r.append("%files\n");
        if let Some(c) = &self.config_noreplace {
            r.append("%config(noreplace) ");
            r.append(c.as_str());
            r.append("\n");
        }
        push_file_lines(&mut r, &self.files);
        r
    }

    /// The text of the spec file: the header, the description, the build
    /// sections, the scriptlets and the list of files, in this order.
    pub fn render(&self) -> (r: String)
        ensures
            r@ == self@.rendered(),
    {
        let mut r = self.preamble();
        r.append(self.body().as_str());
        r.append(self.scriptlets().as_str());
        r.append(self.files_section().as_str());
        r
    }
}

/// The spec file of a package: the recipe's metadata, with the release and
/// the architecture as RPM names them, the summary taken from the
/// description where the recipe gives none, and the dependency lists
/// resolved for the image. The package owns the files and then the
/// directories given.
pub open spec fn rpm_spec_of(
    meta: MetadataView,
    sources: Seq<Seq<char>>,
    files: Seq<Seq<char>>,
    dirs: Seq<Seq<char>>,
    image: Seq<char>,
) -> RpmSpecView {
    RpmSpecView {
        name: meta.name,
        version: meta.version,
        release: meta.rpm_release(),
        epoch: rpm_part(meta.rpm, |r: RpmInfoView| r.epoch),
        summary: match rpm_part(meta.rpm, |r: RpmInfoView| r.summary) {
            Some(s) => s,
            None => meta.description,
        },
        license: meta.license,
        vendor: rpm_part(meta.rpm, |r: RpmInfoView| r.vendor),
        icon: rpm_part(meta.rpm, |r: RpmInfoView| r.icon),
        group: meta.group,
        packager: meta.maintainer,
        build_arch: rpm_arch_of(meta.arch),
        sources,
        requires: resolved_or_none(meta.depends, image),
        provides: resolved_or_none(meta.provides, image),
        conflicts: resolved_or_none(meta.conflicts, image),
        obsoletes: match meta.rpm {
            Some(r) => resolved_or_none(r.obsoletes, image),
            None => Seq::empty(),
        },
        description: meta.description,
        pre_script: rpm_part(meta.rpm, |r: RpmInfoView| r.pre_script),
        post_script: rpm_part(meta.rpm, |r: RpmInfoView| r.post_script),
        preun_script: rpm_part(meta.rpm, |r: RpmInfoView| r.preun_script),
        postun_script: rpm_part(meta.rpm, |r: RpmInfoView| r.postun_script),
        config_noreplace: rpm_part(meta.rpm, |r: RpmInfoView| r.config_noreplace),
        files: files + dirs,
    }
}

/// A field of the RPM block of a recipe; nothing where the recipe has no
/// such block.
pub open spec fn rpm_part(
    rpm: Option<RpmInfoView>,
    part: spec_fn(RpmInfoView) -> Option<Seq<char>>,
) -> Option<Seq<char>> {
    match rpm {
        Some(r) => part(r),
        None => None,
    }
}

impl Metadata {
    /// The spec file of the package for one image.
    pub fn as_rpm_spec(
        &self,
        sources: &Vec<String>,
        files: &Vec<String>,
        dirs: &Vec<String>,
        image: &str,
    ) -> (r: RpmSpec)
        ensures
            r@ == rpm_spec_of(
                self@,
                sources.deep_view(),
                files.deep_view(),
                dirs.deep_view(),
                image@,
            ),
    {
        let mut owned: Vec<String> = copy_texts(files);
        append_names(&mut owned, dirs);
        let summary = match &self.rpm {
            Some(rpm) => match &rpm.summary {
                Some(s) => s.clone(),
                None => self.description.clone(),
            },
            None => self.description.clone(),
        };
        let (epoch, vendor, icon, obsoletes) = match &self.rpm {
            Some(rpm) => (
                copy_text(&rpm.epoch),
                copy_text(&rpm.vendor),
                copy_text(&rpm.icon),
                resolve_or_none(&rpm.obsoletes, image),
            ),
            None => {
                let none: Vec<String> = Vec::new();
                assert(none.deep_view() == Seq::<Seq<char>>::empty());
                (None, None, None, none)
            },
        };
        let (pre_script, post_script, preun_script, postun_script, config_noreplace) =
            match &self.rpm {
            Some(rpm) => (
                copy_text(&rpm.pre_script),
                copy_text(&rpm.post_script),
                copy_text(&rpm.preun_script),
                copy_text(&rpm.postun_script),
                copy_text(&rpm.config_noreplace),
            ),
            None => (None, None, None, None, None),
        };
        RpmSpec {
            name: self.name.clone(),
            version: self.version.clone(),
            release: self.rpm_release().to_owned(),
            epoch,
            summary,
            license: self.license.clone(),
            vendor,
            icon,
            group: copy_text(&self.group),
            packager: copy_text(&self.maintainer),
            build_arch: self.rpm_arch().to_owned(),
            sources: copy_texts(sources),
            requires: resolve_or_none(&self.depends, image),
            provides: resolve_or_none(&self.provides, image),
            conflicts: resolve_or_none(&self.conflicts, image),
            obsoletes,
            description: self.description.clone(),
            pre_script,
            post_script,
            preun_script,
            postun_script,
            config_noreplace,
            files: owned,
        }
    }
}

} // verus!
