//! Getting the metadata of a project, as a plan and a report.
//!
//! The build tool is run by the caller. Before that the library says whether it
//! is to be run at all, and which files are to be tracked by their digest
//! before it runs. After that it says which files are to be tracked in
//! addition, and how to mark the computation. No file is named twice.

use vstd::prelude::*;
use crate::diagnostics::{Diagnostic, DiagnosticModel};
use crate::metadata::{lookup_package, Metadata, MetadataModel};
use crate::paths::{path_with_file_name, sibling_of};
use crate::project::{contains_text, text_eq};

verus! {

/// Where the manifest of a project lies, and which tool manages the project.
#[derive(Clone, Debug, PartialEq, Eq)]
pub enum ProjectManifestPath {
    /// Path of the `Scarb.toml` of a project that Scarb manages.
    Scarb(String),
    /// Path of the `cairo_project.toml` of a project without a build tool.
    CairoProject(String),
}

/// Mathematical model of a [`ProjectManifestPath`].
pub enum ProjectManifestPathModel {
    Scarb(Seq<char>),
    CairoProject(Seq<char>),
}

impl DeepView for ProjectManifestPath {
    type V = ProjectManifestPathModel;

    open spec fn deep_view(&self) -> ProjectManifestPathModel {
        match self {
            ProjectManifestPath::Scarb(path) => ProjectManifestPathModel::Scarb(path@),
            ProjectManifestPath::CairoProject(path) => ProjectManifestPathModel::CairoProject(
                path@,
            ),
        }
    }
}

impl View for ProjectManifestPath {
    type V = ProjectManifestPathModel;

    open spec fn view(&self) -> ProjectManifestPathModel {
        self.deep_view()
    }
}

/// What is to be done to get the metadata of a project.
#[derive(Clone, Debug, PartialEq, Eq)]
pub enum FetchPlan {
    /// The project is not managed by Scarb. There is no metadata; nothing is
    /// tracked or marked, and the warning is all there is to do.
    Unmanaged { warning: Diagnostic },
    /// The build tool is to be run on this manifest. Before it runs, each of
    /// `tracked_files` is to be tracked by its digest, so that the run is made
    /// again once one of them changes, whatever the run comes to.
    Invoke { manifest_path: String, tracked_files: Vec<String> },
}

/// Mathematical model of a [`FetchPlan`].
pub enum FetchPlanModel {
    Unmanaged { warning: DiagnosticModel },
    Invoke { manifest_path: Seq<char>, tracked_files: Seq<Seq<char>> },
}

impl DeepView for FetchPlan {
    type V = FetchPlanModel;

    open spec fn deep_view(&self) -> FetchPlanModel {
        match self {
            FetchPlan::Unmanaged { warning } => FetchPlanModel::Unmanaged { warning: warning@ },
            FetchPlan::Invoke { manifest_path, tracked_files } => FetchPlanModel::Invoke {
                manifest_path: manifest_path@,
                tracked_files: tracked_files.deep_view(),
            },
        }
    }
}

impl View for FetchPlan {
    type V = FetchPlanModel;

    open spec fn view(&self) -> FetchPlanModel {
        self.deep_view()
    }
}

/// How the cache is to treat the computation that asked for metadata.
#[derive(Clone, Copy, Debug, PartialEq, Eq, Structural)]
pub enum CacheMark {
    /// The result may change often: it is of low durability, and stays valid
    /// until a tracked file changes.
    LowDurability,
    /// The result rests on something that no file shows: it is computed anew
    /// every time.
    Untracked,
}

/// What came of running the build tool.
#[derive(Clone, Debug, PartialEq, Eq)]
pub struct MetadataFetch {
    /// The metadata, if the tool gave any.
    pub metadata: Option<Metadata>,
    /// The files that are to be tracked by their digest in addition to those
    /// of the plan. A file that does not exist is tracked all the same.
    pub tracked_files: Vec<String>,
    pub mark: CacheMark,
    pub diagnostics: Vec<Diagnostic>,
}

/// Mathematical model of a [`MetadataFetch`].
pub struct MetadataFetchModel {
    pub metadata: Option<MetadataModel>,
    pub tracked_files: Seq<Seq<char>>,
    pub mark: CacheMark,
    pub diagnostics: Seq<DiagnosticModel>,
}

impl DeepView for MetadataFetch {
    type V = MetadataFetchModel;

    open spec fn deep_view(&self) -> MetadataFetchModel {
        MetadataFetchModel {
            metadata: self.metadata.deep_view(),
            tracked_files: self.tracked_files.deep_view(),
            mark: self.mark,
            diagnostics: self.diagnostics.deep_view(),
        }
    }
}

impl View for MetadataFetch {
    type V = MetadataFetchModel;

    open spec fn view(&self) -> MetadataFetchModel {
        self.deep_view()
    }
}

/// Name of the lock file, which lies beside the manifest.
pub open spec fn lock_file_name() -> Seq<char> {
    "Scarb.lock"@
}

/// The files that are tracked before the build tool runs: the manifest and the
/// lock file, each once.
pub open spec fn tracked_before(manifest_path: Seq<char>, lock_path: Seq<char>) -> Seq<Seq<char>> {
    if lock_path == manifest_path {
        seq![manifest_path]
    } else {
        seq![manifest_path, lock_path]
    }
}

/// The plan for the Scarb project with the manifest `manifest_path`, whose
/// lock file is `lock_path`.
pub open spec fn invocation(manifest_path: Seq<char>, lock_path: Seq<char>) -> FetchPlanModel {
    FetchPlanModel::Invoke {
        manifest_path,
        tracked_files: tracked_before(manifest_path, lock_path),
    }
}

/// The plan for a project: the tool is run exactly for a project that Scarb
/// manages, and then the manifest and the lock file beside it are tracked
/// before the run.
pub open spec fn planned(project: ProjectManifestPathModel) -> FetchPlanModel {
    match project {
        ProjectManifestPathModel::Scarb(manifest_path) => invocation(
            manifest_path,
            sibling_of(manifest_path, lock_file_name()),
        ),
        ProjectManifestPathModel::CairoProject(manifest_path) => FetchPlanModel::Unmanaged {
            warning: DiagnosticModel::NotScarbProject { manifest_path },
        },
    }
}

/// Lists the files that are to be tracked before the build tool runs on
/// `manifest_path`, given the path of the lock file.
pub fn tracked_before_run(manifest_path: &str, lock_path: String) -> (files: Vec<String>)
    ensures
        files.deep_view() == tracked_before(manifest_path@, lock_path@),
{
    let mut files: Vec<String> = Vec::new();
    files.push(manifest_path.to_owned());
    if !text_eq(lock_path.as_str(), manifest_path) {
        files.push(lock_path);
        assert(files.deep_view() =~= seq![manifest_path@, lock_path@]);
    } else {
        assert(files.deep_view() =~= seq![manifest_path@]);
    }
    files
}

/// Makes the plan for the Scarb project with the manifest `manifest_path`,
/// given the path of the lock file.
pub fn plan_invocation(manifest_path: &str, lock_path: String) -> (plan: FetchPlan)
    ensures
        plan@ == invocation(manifest_path@, lock_path@),
{
    FetchPlan::Invoke {
        manifest_path: manifest_path.to_owned(),
        tracked_files: tracked_before_run(manifest_path, lock_path),
    }
}

/// Says what is to be done to get the metadata of `project`.
pub fn plan_fetch(project: &ProjectManifestPath) -> (plan: FetchPlan)
    ensures
        plan@ == planned(project@),
{
    match project {
        ProjectManifestPath::Scarb(manifest_path) => plan_invocation(
            manifest_path.as_str(),
            path_with_file_name(manifest_path.as_str(), "Scarb.lock"),
        ),
        ProjectManifestPath::CairoProject(manifest_path) => FetchPlan::Unmanaged {
            warning: Diagnostic::NotScarbProject { manifest_path: manifest_path.clone() },
        },
    }
}

/// The manifest of the member of the workspace at index `i`, if the document
/// has a package for that member.
pub open spec fn member_manifest(metadata: MetadataModel, i: int) -> Option<Seq<char>> {
    match lookup_package(metadata.packages, metadata.workspace_members[i]) {
        Some(package) => Some(package.manifest_path),
        None => None,
    }
}

/// The manifests of the first `n` members of the workspace that are not among
/// `known`, each once, in the order of the members.
pub open spec fn member_files(metadata: MetadataModel, known: Seq<Seq<char>>, n: int) -> Seq<
    Seq<char>,
>
    decreases n,
{
    if n <= 0 {
        Seq::empty()
    } else {
        let before = member_files(metadata, known, n - 1);
        match member_manifest(metadata, n - 1) {
            Some(file) => if known.contains(file) || before.contains(file) {
                before
            } else {
                before.push(file)
            },
            None => before,
        }
    }
}

/// The report on a run of the build tool on `manifest_path`, whose lock file
/// is `lock_path`.
///
/// A run that failed leaves no metadata, an error to log, and a computation
/// that is never taken from the cache; nothing is tracked beyond the files of
/// the plan. A run that succeeded hands its metadata on, is of low durability,
/// and tracks in addition the manifest of every member of the workspace that
/// the plan did not name.
pub open spec fn reported(
    manifest_path: Seq<char>,
    lock_path: Seq<char>,
    outcome: Result<MetadataModel, Seq<char>>,
) -> MetadataFetchModel {
    match outcome {
        Ok(metadata) => MetadataFetchModel {
            metadata: Some(metadata),
            tracked_files: member_files(
                metadata,
                tracked_before(manifest_path, lock_path),
                metadata.workspace_members.len() as int,
            ),
            mark: CacheMark::LowDurability,
            diagnostics: Seq::empty(),
        },
        Err(cause) => MetadataFetchModel {
            metadata: None,
            tracked_files: Seq::empty(),
            mark: CacheMark::Untracked,
            diagnostics: seq![DiagnosticModel::MetadataUnavailable { manifest_path, cause }],
        },
    }
}

/// The report on a run of the build tool on `manifest_path`, with the lock
/// file beside the manifest.
pub open spec fn fetched(
    manifest_path: Seq<char>,
    outcome: Result<MetadataModel, Seq<char>>,
) -> MetadataFetchModel {
    reported(manifest_path, sibling_of(manifest_path, lock_file_name()), outcome)
}

/// All files that are tracked for one run of the build tool: those of the plan,
/// then those of the report.
pub open spec fn all_tracked(
    manifest_path: Seq<char>,
    lock_path: Seq<char>,
    outcome: Result<MetadataModel, Seq<char>>,
) -> Seq<Seq<char>> {
    tracked_before(manifest_path, lock_path) + reported(
        manifest_path,
        lock_path,
        outcome,
    ).tracked_files
}

/// Model of the outcome of a run of the build tool.
pub open spec fn outcome_model(outcome: Result<Metadata, String>) -> Result<
    MetadataModel,
    Seq<char>,
> {
    match outcome {
        Ok(metadata) => Ok(metadata@),
        Err(cause) => Err(cause@),
    }
}

/// Reports on a run of the build tool on `manifest_path`, given the path of
/// the lock file and what the run came to: the metadata or the cause of the
/// failure.
pub fn report_fetch(manifest_path: &str, lock_path: String, outcome: Result<Metadata, String>) -> (fetch:
    MetadataFetch)
    ensures
        fetch@ == reported(manifest_path@, lock_path@, outcome_model(outcome)),
{
    let mut tracked_files: Vec<String> = Vec::new();
    assert(tracked_files.deep_view() =~= Seq::empty());
    match outcome {
        Err(cause) => {
            let mut diagnostics: Vec<Diagnostic> = Vec::new();
            diagnostics.push(
                Diagnostic::MetadataUnavailable { manifest_path: manifest_path.to_owned(), cause },
            );
            assert(diagnostics.deep_view() =~= seq![
                DiagnosticModel::MetadataUnavailable {
                    manifest_path: manifest_path@,
                    cause: cause@,
                },
            ]);
            MetadataFetch { metadata: None, tracked_files, mark: CacheMark::Untracked, diagnostics }
        },
        Ok(metadata) => {
            let known = tracked_before_run(manifest_path, lock_path);
            let mut m: usize = 0;
            while m < metadata.workspace_members.len()
                invariant
                    0 <= m <= metadata.workspace_members@.len(),
                    metadata@.workspace_members.len() == metadata.workspace_members@.len(),
                    tracked_files.deep_view() == member_files(
                        metadata@,
                        known.deep_view(),
                        m as int,
                    ),
                decreases metadata.workspace_members@.len() - m,
            {
                let member = &metadata.workspace_members[m];
                let ghost before = tracked_files.deep_view();
                assert(metadata@.workspace_members[m as int] == member@);
                match metadata.get_package(member) {
                    Some(package) => {
                        let file = package.manifest_path.as_str();
                        if !contains_text(&known, file) && !contains_text(&tracked_files, file) {
                            tracked_files.push(package.manifest_path.clone());
                            assert(tracked_files.deep_view() =~= before.push(
                                package@.manifest_path,
                            ));
                        }
                    },
                    None => {},
                }
                m += 1;
            }
            let diagnostics: Vec<Diagnostic> = Vec::new();
            assert(diagnostics.deep_view() =~= Seq::empty());
            MetadataFetch {
                metadata: Some(metadata),
                tracked_files,
                mark: CacheMark::LowDurability,
                diagnostics,
            }
        },
    }
}

/// Reports on the metadata of the Scarb project with the manifest
/// `manifest_path`, given what a run of the build tool on it came to: the
/// metadata or the cause of the failure.
pub fn scarb_metadata(manifest_path: &str, outcome: Result<Metadata, String>) -> (fetch:
    MetadataFetch)
    ensures
        fetch@ == fetched(manifest_path@, outcome_model(outcome)),
{
    report_fetch(manifest_path, path_with_file_name(manifest_path, "Scarb.lock"), outcome)
}

} // verus!
