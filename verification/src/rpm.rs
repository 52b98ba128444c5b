//! The assembler of RPM packages.
//!
//! Building a package takes a fixed series of steps inside the container.
//! `RpmBuild` is the state of that series: it says what is to be done next
//! and takes in what came of it.

use crate::assemble::{assembly_failure, fail_assembly};
use crate::error::{PkgerError, PkgerErrorView};
use crate::metadata::{rpm_arch_of, Metadata, MetadataView};
use crate::rpmspec::{rpm_spec_of, RpmSpec, RpmSpecView};
use crate::session::{copy_error, Action, ActionView, Event, EventView, ExecOpts, ExecOptsView};
use crate::target::BuildTarget;
use crate::text::{
    append_names, concat_all, concat_strings, join_path, joined, split_ascii_whitespace, str_eq,
    strip_prefix, without_prefix, words,
};
use vstd::prelude::*;
use vstd::string::*;

verus! {

/// Whether a listed word is an entry of the searched directory, rather than
/// the directory itself.
pub open spec fn is_entry() -> spec_fn(Seq<char>) -> bool {
    |word: Seq<char>| word != "."@
}

/// An entry without the `./` that `find` puts before it.
pub open spec fn relative() -> spec_fn(Seq<char>) -> Seq<char> {
    |word: Seq<char>| without_prefix(word, "./"@)
}

/// The entries that a search of depth one has listed: the words of its
/// output but for the searched directory itself, each without its leading
/// `./`.
pub open spec fn entries_of(stdout: Seq<Seq<char>>) -> Seq<Seq<char>> {
    words(concat_all(stdout)).filter(is_entry()).map_values(relative())
}

/// Reads the entries of the install tree from the output of `find`.
pub fn find_entries(stdout: &Vec<String>) -> (r: Vec<String>)
    ensures
        r.deep_view() == entries_of(stdout.deep_view()),
{
    let text = concat_strings(stdout);
    let listed = split_ascii_whitespace(text.as_str());
    let ghost all = listed.deep_view();
    let mut out: Vec<String> = Vec::new();
    let mut i: usize = 0;
    while i < listed.len()
        invariant
            i <= listed@.len(),
            all == listed.deep_view(),
            out.deep_view() == all.take(i as int).filter(is_entry()).map_values(relative()),
        decreases listed@.len() - i,
    {
        let ghost seen = all.take(i as int);
        let ghost word = listed@[i as int]@;
        assert(all.take(i + 1) == seen.push(word));
        proof {
            seen.lemma_filter_push(word, is_entry());
            seen.filter(is_entry()).lemma_push_map_commute(relative(), word);
        }
        if !str_eq(listed[i].as_str(), ".") {
            let entry = strip_prefix(listed[i].as_str(), "./");
            out.push(entry);
        }
        i += 1;
    }
    assert(all.take(all.len() as int) == all);
    out
}

/// The names and paths that the steps of one build share.
#[derive(Clone, Debug, PartialEq, Eq)]
pub struct RpmPlan {
    pub specs_dir: String,
    pub sources_dir: String,
    pub rpms_dir: String,
    pub rpms_arch_dir: String,
    pub srpms_dir: String,
    pub tmp_buildroot: String,
    pub source_tar: String,
    pub source_tar_path: String,
    pub spec_entry: String,
    pub spec_path: String,
    pub spec_tar_path: String,
    pub container_out_dir: String,
    pub output_dir: String,
    pub artifact: String,
}

pub struct RpmPlanView {
    pub specs_dir: Seq<char>,
    pub sources_dir: Seq<char>,
    pub rpms_dir: Seq<char>,
    pub rpms_arch_dir: Seq<char>,
    pub srpms_dir: Seq<char>,
    pub tmp_buildroot: Seq<char>,
    pub source_tar: Seq<char>,
    pub source_tar_path: Seq<char>,
    pub spec_entry: Seq<char>,
    pub spec_path: Seq<char>,
    pub spec_tar_path: Seq<char>,
    pub container_out_dir: Seq<char>,
    pub output_dir: Seq<char>,
    pub artifact: Seq<char>,
}

impl View for RpmPlan {
    type V = RpmPlanView;

    open spec fn view(&self) -> RpmPlanView {
        RpmPlanView {
            specs_dir: self.specs_dir@,
            sources_dir: self.sources_dir@,
            rpms_dir: self.rpms_dir@,
            rpms_arch_dir: self.rpms_arch_dir@,
            srpms_dir: self.srpms_dir@,
            tmp_buildroot: self.tmp_buildroot@,
            source_tar: self.source_tar@,
            source_tar_path: self.source_tar_path@,
            spec_entry: self.spec_entry@,
            spec_path: self.spec_path@,
            spec_tar_path: self.spec_tar_path@,
            container_out_dir: self.container_out_dir@,
            output_dir: self.output_dir@,
            artifact: self.artifact@,
        }
    }
}

/// The directory under which `rpmbuild` keeps its tree.
pub open spec fn rpmbuild_dir() -> Seq<char> {
    "/root/rpmbuild"@
}

/// Name and version of the package, as its files carry them.
pub open spec fn package_name(meta: MetadataView) -> Seq<char> {
    meta.name + "-"@ + meta.version
}

/// Name, version, release and architecture of the package: the name of its
/// build root and, with `.rpm` behind it, of the package file.
pub open spec fn buildroot_name(meta: MetadataView) -> Seq<char> {
    package_name(meta) + "-"@ + meta.rpm_release() + "."@ + rpm_arch_of(meta.arch)
}

/// The name of the package file.
pub open spec fn rpm_file_name(meta: MetadataView) -> Seq<char> {
    buildroot_name(meta) + ".rpm"@
}

impl RpmPlanView {
    /// The plan of a build: the `rpmbuild` tree, the temporary build root
    /// under `/tmp`, the archive of the sources, the spec file with the
    /// archive it is uploaded in, and the package file in the output
    /// directory of the host.
    pub open spec fn of(meta: MetadataView, container_out_dir: Seq<char>, output_dir: Seq<char>)
        -> RpmPlanView {
        let specs_dir = joined(rpmbuild_dir(), "SPECS"@);
        let sources_dir = joined(rpmbuild_dir(), "SOURCES"@);
        let rpms_dir = joined(rpmbuild_dir(), "RPMS"@);
        let source_tar = package_name(meta) + ".tar.gz"@;
        RpmPlanView {
            specs_dir,
            sources_dir,
            rpms_dir,
            rpms_arch_dir: joined(rpms_dir, rpm_arch_of(meta.arch)),
            srpms_dir: joined(rpmbuild_dir(), "SRPMS"@),
            tmp_buildroot: "/tmp/"@ + buildroot_name(meta),
            source_tar,
            source_tar_path: joined(sources_dir, source_tar),
            spec_entry: "./"@ + meta.name + ".spec"@,
            spec_path: joined(specs_dir, meta.name + ".spec"@),
            spec_tar_path: joined(specs_dir, package_name(meta) + "-spec.tar"@),
            container_out_dir,
            output_dir,
            artifact: joined(output_dir, rpm_file_name(meta)),
        }
    }

    /// The directories of the `rpmbuild` tree.
    pub open spec fn dirs(self) -> Seq<Seq<char>> {
        seq![self.specs_dir, self.sources_dir, self.rpms_dir, self.rpms_arch_dir, self.srpms_dir]
    }

    /// Copies the install tree to the temporary build root.
    pub open spec fn copy_cmd(self) -> Seq<char> {
        "cp -rv "@ + self.container_out_dir + " "@ + self.tmp_buildroot
    }

    /// Packs the temporary build root into the archive of the sources.
    pub open spec fn pack_cmd(self) -> Seq<char> {
        "tar -zcvf "@ + self.source_tar_path + " ."@
    }

    /// Unpacks the uploaded archive into the directory of the spec files.
    pub open spec fn unpack_cmd(self) -> Seq<char> {
        "tar -xvf "@ + self.spec_tar_path + " -C "@ + self.specs_dir
    }

    /// Builds the package from the spec file.
    pub open spec fn build_cmd(self) -> Seq<char> {
        "rpmbuild -bb "@ + self.spec_path
    }
}

/// Lists the regular files at the top of the current directory.
pub open spec fn find_files_cmd() -> Seq<char> {
    "find . -type f -maxdepth 1 -name \"*\""@
}

/// Lists the directories at the top of the current directory.
pub open spec fn find_dirs_cmd() -> Seq<char> {
    "find . -type d -maxdepth 1 -name \"*\""@
}

impl RpmPlan {
    fn copy_cmd(&self) -> (r: String)
        ensures
            r@ == self@.copy_cmd(),
    {
        let mut cmd = "cp -rv ".to_owned();
        cmd.append(self.container_out_dir.as_str());
        cmd.append(" ");
        cmd.append(self.tmp_buildroot.as_str());
        cmd
    }

    fn pack_cmd(&self) -> (r: String)
        ensures
            r@ == self@.pack_cmd(),
    {
        let mut cmd = "tar -zcvf ".to_owned();
        cmd.append(self.source_tar_path.as_str());
        cmd.append(" .");
        cmd
    }

    fn unpack_cmd(&self) -> (r: String)
        ensures
            r@ == self@.unpack_cmd(),
    {
        let mut cmd = "tar -xvf ".to_owned();
        cmd.append(self.spec_tar_path.as_str());
        cmd.append(" -C ");
        cmd.append(self.specs_dir.as_str());
        cmd
    }

    fn build_cmd(&self) -> (r: String)
        ensures
            r@ == self@.build_cmd(),
    {
        let mut cmd = "rpmbuild -bb ".to_owned();
        cmd.append(self.spec_path.as_str());
        cmd
    }

    /// Lays out a build of the package of `meta`.
    pub fn new(meta: &Metadata, container_out_dir: &str, output_dir: &str) -> (r: RpmPlan)
        ensures
            r@ == RpmPlanView::of(meta@, container_out_dir@, output_dir@),
    {
        let arch = meta.rpm_arch();
        let mut package = meta.name.clone();
        package.append("-");
        package.append(meta.version.as_str());
        let mut buildroot = package.clone();
        buildroot.append("-");
        buildroot.append(meta.rpm_release());
        buildroot.append(".");
        buildroot.append(arch);
        let mut source_tar = package.clone();
        source_tar.append(".tar.gz");
        let mut spec_file = meta.name.clone();
        spec_file.append(".spec");
        let mut spec_entry = "./".to_owned();
        spec_entry.append(spec_file.as_str());
        let mut spec_tar = package.clone();
        spec_tar.append("-spec.tar");
        let mut tmp_buildroot = "/tmp/".to_owned();
        tmp_buildroot.append(buildroot.as_str());
        let mut rpm_file = buildroot.clone();
        rpm_file.append(".rpm");
        let specs_dir = join_path("/root/rpmbuild", "SPECS");
        let sources_dir = join_path("/root/rpmbuild", "SOURCES");
        let rpms_dir = join_path("/root/rpmbuild", "RPMS");
        let rpms_arch_dir = join_path(rpms_dir.as_str(), arch);
        let srpms_dir = join_path("/root/rpmbuild", "SRPMS");
        let source_tar_path = join_path(sources_dir.as_str(), source_tar.as_str());
        let spec_path = join_path(specs_dir.as_str(), spec_file.as_str());
        let spec_tar_path = join_path(specs_dir.as_str(), spec_tar.as_str());
        let artifact = join_path(output_dir, rpm_file.as_str());
        assert(spec_entry@ == "./"@ + meta@.name + ".spec"@);
        RpmPlan {
            specs_dir,
            sources_dir,
            rpms_dir,
            rpms_arch_dir,
            srpms_dir,
            tmp_buildroot,
            source_tar,
            source_tar_path,
            spec_entry,
            spec_path,
            spec_tar_path,
            container_out_dir: container_out_dir.to_owned(),
            output_dir: output_dir.to_owned(),
            artifact,
        }
    }
}

/// The steps of a build, in the order in which they are taken.
#[derive(Clone, Copy, Debug, PartialEq, Eq, Hash, Structural)]
pub enum RpmStage {
    /// Make the `rpmbuild` tree.
    CreateDirs,
    /// Copy the install tree to the temporary build root.
    CopyTree,
    /// Pack the temporary build root into the archive of the sources.
    PackSources,
    /// List the files at the top of the install tree.
    FindFiles,
    /// List the directories at the top of the install tree.
    FindDirs,
    /// Upload the spec file.
    UploadSpec,
    /// Unpack the uploaded spec file.
    UnpackSpec,
    /// Run `rpmbuild`.
    Build,
    /// Bring the package to the host.
    Download,
    /// Nothing is left to do.
    Finished,
}

impl RpmStage {
    /// The step that follows; the last one follows itself.
    pub open spec fn next(self) -> RpmStage {
        match self {
            RpmStage::CreateDirs => RpmStage::CopyTree,
            RpmStage::CopyTree => RpmStage::PackSources,
            RpmStage::PackSources => RpmStage::FindFiles,
            RpmStage::FindFiles => RpmStage::FindDirs,
            RpmStage::FindDirs => RpmStage::UploadSpec,
            RpmStage::UploadSpec => RpmStage::UnpackSpec,
            RpmStage::UnpackSpec => RpmStage::Build,
            RpmStage::Build => RpmStage::Download,
            RpmStage::Download => RpmStage::Finished,
            RpmStage::Finished => RpmStage::Finished,
        }
    }

    /// What a failure of the step is reported as; nothing for a step whose
    /// failure is reported as it is.
    pub open spec fn context(self) -> Option<Seq<char>> {
        match self {
            RpmStage::CreateDirs => Some("failed to create directories"@),
            RpmStage::CopyTree => Some("failed to copy source file to temp dir"@),
            RpmStage::PackSources => None,
            RpmStage::FindFiles => Some("failed to find source files"@),
            RpmStage::FindDirs => Some("failed to find source dirs"@),
            RpmStage::UploadSpec => Some("failed to copy archive with spec"@),
            RpmStage::UnpackSpec => None,
            RpmStage::Build => Some("failed to build rpm package"@),
            RpmStage::Download => Some("failed to download files"@),
            RpmStage::Finished => None,
        }
    }

    pub fn following(&self) -> (r: RpmStage)
        ensures
            r == self.next(),
    {
        match self {
            RpmStage::CreateDirs => RpmStage::CopyTree,
            RpmStage::CopyTree => RpmStage::PackSources,
            RpmStage::PackSources => RpmStage::FindFiles,
            RpmStage::FindFiles => RpmStage::FindDirs,
            RpmStage::FindDirs => RpmStage::UploadSpec,
            RpmStage::UploadSpec => RpmStage::UnpackSpec,
            RpmStage::UnpackSpec => RpmStage::Build,
            RpmStage::Build => RpmStage::Download,
            RpmStage::Download => RpmStage::Finished,
            RpmStage::Finished => RpmStage::Finished,
        }
    }

    pub fn failure_context(&self) -> (r: Option<&'static str>)
        ensures
            match r {
                Some(c) => self.context() == Some(c@),
                None => self.context() is None,
            },
    {
        match self {
            RpmStage::CreateDirs => Some("failed to create directories"),
            RpmStage::CopyTree => Some("failed to copy source file to temp dir"),
            RpmStage::PackSources => None,
            RpmStage::FindFiles => Some("failed to find source files"),
            RpmStage::FindDirs => Some("failed to find source dirs"),
            RpmStage::UploadSpec => Some("failed to copy archive with spec"),
            RpmStage::UnpackSpec => None,
            RpmStage::Build => Some("failed to build rpm package"),
            RpmStage::Download => Some("failed to download files"),
            RpmStage::Finished => None,
        }
    }
}

/// The state of one build.
#[derive(Clone, Debug, PartialEq, Eq)]
pub struct RpmBuild {
    plan: RpmPlan,
    spec: RpmSpec,
    stage: RpmStage,
    failure: Option<PkgerError>,
}

pub struct RpmBuildView {
    pub plan: RpmPlanView,
    /// The spec file as far as it is known: the files it lists are filled
    /// in by the two searches of the install tree.
    pub spec: RpmSpecView,
    pub stage: RpmStage,
    pub failure: Option<PkgerErrorView>,
}

impl RpmBuildView {
    /// A build at its start, for the package of `meta` built on `image`.
    pub open spec fn start(
        meta: MetadataView,
        image: Seq<char>,
        container_out_dir: Seq<char>,
        output_dir: Seq<char>,
    ) -> RpmBuildView {
        let plan = RpmPlanView::of(meta, container_out_dir, output_dir);
        RpmBuildView {
            plan,
            spec: rpm_spec_of(meta, seq![plan.source_tar], Seq::empty(), Seq::empty(), image),
            stage: RpmStage::CreateDirs,
            failure: None,
        }
    }

    /// What the current step asks of the session.
    pub open spec fn step(self) -> ActionView {
        match self.stage {
            RpmStage::CreateDirs => ActionView::CreateDirs(self.plan.dirs()),
            RpmStage::CopyTree => ActionView::Exec(ExecOptsView::plain(self.plan.copy_cmd())),
            RpmStage::PackSources => ActionView::Exec(
                ExecOptsView::within(self.plan.pack_cmd(), self.plan.tmp_buildroot),
            ),
            RpmStage::FindFiles => ActionView::Exec(
                ExecOptsView::within(find_files_cmd(), self.plan.container_out_dir),
            ),
            RpmStage::FindDirs => ActionView::Exec(
                ExecOptsView::within(find_dirs_cmd(), self.plan.container_out_dir),
            ),
            RpmStage::UploadSpec => ActionView::Upload {
                path: self.plan.spec_tar_path,
                entry: self.plan.spec_entry,
                content: self.spec.rendered(),
            },
            RpmStage::UnpackSpec => ActionView::Exec(ExecOptsView::plain(self.plan.unpack_cmd())),
            RpmStage::Build => ActionView::Exec(ExecOptsView::plain(self.plan.build_cmd())),
            RpmStage::Download => ActionView::Download {
                from: self.plan.rpms_arch_dir,
                to: self.plan.output_dir,
            },
            RpmStage::Finished => ActionView::Finish { artifact: self.plan.artifact },
        }
    }

    /// What is to be done in this state: nothing more after a failure, else
    /// the current step.
    pub open spec fn action(self) -> ActionView {
        match self.failure {
            Some(e) => ActionView::Fail(e),
            None => self.step(),
        }
    }

    /// The command of the current step; empty for a step that is none.
    pub open spec fn command(self) -> Seq<char> {
        match self.step() {
            ActionView::Exec(opts) => opts.cmd,
            _ => Seq::empty(),
        }
    }

    /// The spec file after the current step has left `stdout`: the first
    /// search gives the files, the second adds the directories.
    pub open spec fn spec_after(self, stdout: Seq<Seq<char>>) -> RpmSpecView {
        match self.stage {
            RpmStage::FindFiles => RpmSpecView { files: entries_of(stdout), ..self.spec },
            RpmStage::FindDirs => RpmSpecView {
                files: self.spec.files + entries_of(stdout),
                ..self.spec
            },
            _ => self.spec,
        }
    }

    /// The state after what came of the current step is known. A failed
    /// step fails the assembly; any other leads to the next step. A build
    /// that has failed or finished stays as it is.
    pub open spec fn after(self, event: EventView) -> RpmBuildView {
        if self.failure is Some || self.stage == RpmStage::Finished {
            self
        } else {
            match event.failure(self.command()) {
                Some(e) => RpmBuildView {
                    failure: Some(assembly_failure(BuildTarget::Rpm, self.stage.context(), e)),
                    ..self
                },
                None => RpmBuildView {
                    spec: self.spec_after(event.stdout()),
                    stage: self.stage.next(),
                    ..self
                },
            }
        }
    }
}

impl View for RpmBuild {
    type V = RpmBuildView;

    closed spec fn view(&self) -> RpmBuildView {
        RpmBuildView {
            plan: self.plan@,
            spec: self.spec@,
            stage: self.stage,
            failure: self.failure.deep_view(),
        }
    }
}

fn exec_plain(cmd: String) -> (r: ExecOpts)
    ensures
        r@ == ExecOptsView::plain(cmd@),
{
    let r = ExecOpts { cmd, working_dir: None, shell: None, user: None, env: Vec::new() };
    assert(r.env.deep_view() == Seq::<(Seq<char>, Seq<char>)>::empty());
    r
}

fn exec_within(cmd: String, dir: &str) -> (r: ExecOpts)
    ensures
        r@ == ExecOptsView::within(cmd@, dir@),
{
    let r = ExecOpts {
        cmd,
        working_dir: Some(dir.to_owned()),
        shell: None,
        user: None,
        env: Vec::new(),
    };
    assert(r.env.deep_view() == Seq::<(Seq<char>, Seq<char>)>::empty());
    r
}

impl RpmBuild {
    /// A build at its start, for the package of `meta` built on `image`.
    /// The install tree is taken from `container_out_dir` inside the
    /// container, and the package is brought to `output_dir` on the host.
    pub fn new(meta: &Metadata, image: &str, container_out_dir: &str, output_dir: &str) -> (r:
        RpmBuild)
        ensures
            r@ == RpmBuildView::start(meta@, image@, container_out_dir@, output_dir@),
    {
        let plan = RpmPlan::new(meta, container_out_dir, output_dir);
        let mut sources: Vec<String> = Vec::new();
        sources.push(plan.source_tar.clone());
        assert(sources.deep_view() == seq![plan@.source_tar]);
        let none: Vec<String> = Vec::new();
        assert(none.deep_view() == Seq::<Seq<char>>::empty());
        let spec = meta.as_rpm_spec(&sources, &none, &none, image);
        RpmBuild { plan, spec, stage: RpmStage::CreateDirs, failure: None }
    }

    fn step(&self) -> (r: Action)
        ensures
            r@ == self@.step(),
    {
        let plan = &self.plan;
        match self.stage {
            RpmStage::CreateDirs => {
                let mut dirs: Vec<String> = Vec::new();
                dirs.push(plan.specs_dir.clone());
                dirs.push(plan.sources_dir.clone());
                dirs.push(plan.rpms_dir.clone());
                dirs.push(plan.rpms_arch_dir.clone());
                dirs.push(plan.srpms_dir.clone());
                assert(dirs.deep_view() == self@.plan.dirs());
                Action::CreateDirs(dirs)
            },
            RpmStage::CopyTree => Action::Exec(exec_plain(plan.copy_cmd())),
            RpmStage::PackSources => Action::Exec(
                exec_within(plan.pack_cmd(), plan.tmp_buildroot.as_str()),
            ),
            RpmStage::FindFiles => Action::Exec(
                exec_within(
                    "find . -type f -maxdepth 1 -name \"*\"".to_owned(),
                    plan.container_out_dir.as_str(),
                ),
            ),
            RpmStage::FindDirs => Action::Exec(
                exec_within(
                    "find . -type d -maxdepth 1 -name \"*\"".to_owned(),
                    plan.container_out_dir.as_str(),
                ),
            ),
            RpmStage::UploadSpec => Action::Upload {
                path: plan.spec_tar_path.clone(),
                entry: plan.spec_entry.clone(),
                content: self.spec.render(),
            },
            RpmStage::UnpackSpec => Action::Exec(exec_plain(plan.unpack_cmd())),
            RpmStage::Build => Action::Exec(exec_plain(plan.build_cmd())),
            RpmStage::Download => Action::Download {
                from: plan.rpms_arch_dir.clone(),
                to: plan.output_dir.clone(),
            },
            RpmStage::Finished => Action::Finish { artifact: plan.artifact.clone() },
        }
    }

    fn command(&self) -> (r: String)
        ensures
            r@ == self@.command(),
    {
        match self.stage {
            RpmStage::CopyTree => self.plan.copy_cmd(),
            RpmStage::PackSources => self.plan.pack_cmd(),
            RpmStage::FindFiles => "find . -type f -maxdepth 1 -name \"*\"".to_owned(),
            RpmStage::FindDirs => "find . -type d -maxdepth 1 -name \"*\"".to_owned(),
            RpmStage::UnpackSpec => self.plan.unpack_cmd(),
            RpmStage::Build => self.plan.build_cmd(),
            _ => String::new(),
        }
    }

    /// What the caller has to do next.
    pub fn action(&self) -> (r: Action)
        ensures
            r@ == self@.action(),
    {
        match &self.failure {
            Some(e) => Action::Fail(copy_error(e)),
            None => self.step(),
        }
    }

    /// Takes in what came of the action that `action` handed out.
    pub fn advance(&mut self, event: Event)
        ensures
            final(self)@ == old(self)@.after(event@),
    {
        if self.failure.is_some() {
            return ;
        }
        if let RpmStage::Finished = self.stage {
            return ;
        }
        let cmd = self.command();
        match event.settle(cmd.as_str()) {
            Err(e) => {
                self.failure = Some(
                    fail_assembly(BuildTarget::Rpm, self.stage.failure_context(), &e),
                );
            },
            Ok(stdout) => {
                match self.stage {
                    RpmStage::FindFiles => {
                        self.spec.files = find_entries(&stdout);
                    },
                    RpmStage::FindDirs => {
                        let dirs = find_entries(&stdout);
                        append_names(&mut self.spec.files, &dirs);
                    },
                    _ => {},
                }
                self.stage = self.stage.following();
            },
        }
    }
}

} // verus!
