//! Validation of a component's source path.
//!
//! A source path is accepted when it can be read, is no directory, lies in an
//! absolute directory and has a file stem that is text. It is then chopped into
//! that directory and that stem.

use vstd::prelude::*;
use crate::paths::{
    file_stem_of, is_absolute, parent_of, path_file_stem, path_is_absolute, path_parent,
};
use crate::project::text_eq;

verus! {

/// What a look at one path of the file system found.
#[derive(Clone, Copy, Debug, PartialEq, Eq, Structural)]
pub enum PathStatus {
    /// The path could not be read: it does not exist, or access failed.
    Inaccessible,
    /// The path is a directory.
    Directory,
    /// The path is anything but a directory.
    File,
}

/// A path of the file system together with what was found there.
#[derive(Clone, Debug, PartialEq, Eq)]
pub struct FsEntry {
    pub path: String,
    pub status: PathStatus,
}

/// Mathematical model of an [`FsEntry`].
pub struct FsEntryModel {
    pub path: Seq<char>,
    pub status: PathStatus,
}

impl DeepView for FsEntry {
    type V = FsEntryModel;

    open spec fn deep_view(&self) -> FsEntryModel {
        FsEntryModel { path: self.path@, status: self.status }
    }
}

impl View for FsEntry {
    type V = FsEntryModel;

    open spec fn view(&self) -> FsEntryModel {
        self.deep_view()
    }
}

/// The state of the file system at the time of a derivation, as far as it was
/// looked at. A path without an entry counts as inaccessible; of two entries
/// for one path the first one holds.
#[derive(Clone, Debug, PartialEq, Eq)]
pub struct FsSnapshot {
    pub entries: Vec<FsEntry>,
}

impl DeepView for FsSnapshot {
    type V = Seq<FsEntryModel>;

    open spec fn deep_view(&self) -> Seq<FsEntryModel> {
        self.entries.deep_view()
    }
}

impl View for FsSnapshot {
    type V = Seq<FsEntryModel>;

    open spec fn view(&self) -> Seq<FsEntryModel> {
        self.deep_view()
    }
}

/// Status of `path` according to `entries[from..]`.
pub open spec fn status_from(entries: Seq<FsEntryModel>, path: Seq<char>, from: int) -> PathStatus
    decreases entries.len() - from,
{
    if from < 0 || from >= entries.len() {
        PathStatus::Inaccessible
    } else if entries[from].path == path {
        entries[from].status
    } else {
        status_from(entries, path, from + 1)
    }
}

/// Status of `path` according to a snapshot with these entries.
pub open spec fn status_of(entries: Seq<FsEntryModel>, path: Seq<char>) -> PathStatus {
    status_from(entries, path, 0)
}

impl FsSnapshot {
    /// A snapshot without entries: every path is inaccessible.
    pub fn new() -> (snapshot: FsSnapshot)
        ensures
            snapshot@ == Seq::<FsEntryModel>::empty(),
    {
        FsSnapshot { entries: Vec::new() }
    }

    /// Adds what was found at `path`. An earlier entry for the same path keeps
    /// priority.
    pub fn record(&mut self, path: String, status: PathStatus)
        ensures
            final(self)@ == old(self)@.push(FsEntryModel { path: path@, status }),
    {
        self.entries.push(FsEntry { path, status });
    }

    /// What the snapshot says of `path`.
    pub fn status(&self, path: &str) -> (status: PathStatus)
        ensures
            status == status_of(self@, path@),
    {
        let mut i: usize = 0;
        while i < self.entries.len()
            invariant
                0 <= i <= self.entries@.len(),
                status_of(self@, path@) == status_from(self@, path@, i as int),
            decreases self.entries@.len() - i,
        {
            let entry = &self.entries[i];
            assert(self@[i as int] == entry@);
            if text_eq(entry.path.as_str(), path) {
                return entry.status;
            }
            i += 1;
        }
        PathStatus::Inaccessible
    }
}

/// Why a source path was not accepted.
#[derive(Clone, Copy, Debug, PartialEq, Eq, Structural)]
pub enum SourcePathDefect {
    /// The path could not be read.
    Inaccessible,
    /// The path is a directory.
    IsDirectory,
    /// The path has no parent: it is a root of the file system, or empty.
    NoParent,
    /// The directory of the path is not absolute.
    ParentNotAbsolute,
    /// The path has no file stem.
    NoFileStem,
    /// The file stem cannot be written as text.
    FileStemNotText,
}

/// A source path that was not accepted, with the component that it belongs to.
#[derive(Clone, Debug, PartialEq, Eq)]
pub struct SourcePathError {
    pub defect: SourcePathDefect,
    /// Name of the component.
    pub component: String,
    pub source_path: String,
}

/// Mathematical model of a [`SourcePathError`].
pub struct SourcePathErrorModel {
    pub defect: SourcePathDefect,
    pub component: Seq<char>,
    pub source_path: Seq<char>,
}

impl DeepView for SourcePathError {
    type V = SourcePathErrorModel;

    open spec fn deep_view(&self) -> SourcePathErrorModel {
        SourcePathErrorModel {
            defect: self.defect,
            component: self.component@,
            source_path: self.source_path@,
        }
    }
}

impl View for SourcePathError {
    type V = SourcePathErrorModel;

    open spec fn view(&self) -> SourcePathErrorModel {
        self.deep_view()
    }
}

/// The checks on a source path, in their order, over what is known of the path:
/// its status, its parent directory, whether that directory is absolute, and its
/// file stem. The result is the directory and the stem, or the first defect.
pub open spec fn chopped(
    status: PathStatus,
    parent: Option<Seq<char>>,
    parent_is_absolute: bool,
    file_stem: Option<Option<Seq<char>>>,
) -> Result<(Seq<char>, Seq<char>), SourcePathDefect> {
    if status == PathStatus::Inaccessible {
        Err(SourcePathDefect::Inaccessible)
    } else if status == PathStatus::Directory {
        Err(SourcePathDefect::IsDirectory)
    } else {
        match parent {
            None => Err(SourcePathDefect::NoParent),
            Some(root) => {
                if !parent_is_absolute {
                    Err(SourcePathDefect::ParentNotAbsolute)
                } else {
                    match file_stem {
                        None => Err(SourcePathDefect::NoFileStem),
                        Some(None) => Err(SourcePathDefect::FileStemNotText),
                        Some(Some(stem)) => Ok((root, stem)),
                    }
                }
            },
        }
    }
}

/// Whether the parent directory of `path` exists and is absolute.
pub open spec fn parent_is_absolute(path: Seq<char>) -> bool {
    match parent_of(path) {
        Some(root) => is_absolute(root),
        None => false,
    }
}

/// Directory and file stem of the source path `path`, or its first defect, in a
/// file system with the entries `fs`.
pub open spec fn validated(path: Seq<char>, fs: Seq<FsEntryModel>) -> Result<
    (Seq<char>, Seq<char>),
    SourcePathDefect,
> {
    chopped(status_of(fs, path), parent_of(path), parent_is_absolute(path), file_stem_of(path))
}

/// Whether `result` is what validation of the source path `source_path` of the
/// component `component` has to return, given the outcome `expected` of the
/// checks.
pub open spec fn reports(
    result: Result<(String, String), SourcePathError>,
    expected: Result<(Seq<char>, Seq<char>), SourcePathDefect>,
    source_path: Seq<char>,
    component: Seq<char>,
) -> bool {
    match expected {
        Ok((root, stem)) => result matches Ok(pair) && pair.0@ == root && pair.1@ == stem,
        Err(defect) => result matches Err(error) && error@ == (SourcePathErrorModel {
            defect,
            component,
            source_path,
        }),
    }
}

/// Runs the checks on a source path over what is known of it, and chops the
/// path into its directory and its file stem.
///
/// `parent_is_absolute` is read only where `parent` is `Some`.
pub fn chop_source_path(
    status: PathStatus,
    parent: Option<String>,
    parent_is_absolute: bool,
    file_stem: Option<Option<String>>,
    source_path: &str,
    crate_name: &str,
) -> (result: Result<(String, String), SourcePathError>)
    ensures
        reports(
            result,
            chopped(status, parent.deep_view(), parent_is_absolute, file_stem.deep_view()),
            source_path@,
            crate_name@,
        ),
{
    let defect = match status {
        PathStatus::Inaccessible => SourcePathDefect::Inaccessible,
        PathStatus::Directory => SourcePathDefect::IsDirectory,
        PathStatus::File => match parent {
            None => SourcePathDefect::NoParent,
            Some(root) => {
                if !parent_is_absolute {
                    SourcePathDefect::ParentNotAbsolute
                } else {
                    match file_stem {
                        None => SourcePathDefect::NoFileStem,
                        Some(None) => SourcePathDefect::FileStemNotText,
                        Some(Some(stem)) => {
                            return Ok((root, stem));
                        },
                    }
                }
            },
        },
    };
    Err(
        SourcePathError {
            defect,
            component: crate_name.to_owned(),
            source_path: source_path.to_owned(),
        },
    )
}

/// Checks the source path of the component `crate_name` against the file system
/// `fs` and chops it into its directory and its file stem.
pub fn validate_and_chop_source_path(source_path: &str, crate_name: &str, fs: &FsSnapshot) -> (result:
    Result<(String, String), SourcePathError>)
    ensures
        reports(result, validated(source_path@, fs@), source_path@, crate_name@),
{
    let status = fs.status(source_path);
    let parent = path_parent(source_path);
    let parent_is_absolute = match &parent {
        Some(root) => path_is_absolute(root.as_str()),
        None => false,
    };
    let file_stem = path_file_stem(source_path);
    chop_source_path(status, parent, parent_is_absolute, file_stem, source_path, crate_name)
}

} // verus!
