//! What holds of every derivation.

use vstd::prelude::*;
use crate::diagnostics::DiagnosticModel;
use crate::fetch::{
    all_tracked, fetched, lock_file_name, member_files, member_manifest, planned, reported,
    tracked_before, CacheMark, FetchPlanModel, ProjectManifestPathModel,
};
use crate::metadata::{
    lookup_package, CompilationUnitModel, ComponentModel, MetadataModel, PackageModel,
};
use crate::resolve::{
    component_resolution, components_resolution, has_core, is_plugin_unit, metadata_resolution,
    resolved, runtime_components, unit_resolution, units_resolution, ResolutionModel,
};
use crate::settings::{default_edition, known_edition};
use crate::paths::sibling_of;
use crate::source_path::{
    status_of, validated, FsEntryModel, PathStatus, SourcePathDefect, SourcePathErrorModel,
};

verus! {

/// Whether the source path of `component` is accepted in the file system `fs`.
pub open spec fn accepted(component: ComponentModel, fs: Seq<FsEntryModel>) -> bool {
    validated(component.source_path, fs) is Ok
}

/// `unit` without its component at index `i`.
pub open spec fn without_component(unit: CompilationUnitModel, i: int) -> CompilationUnitModel {
    CompilationUnitModel {
        id: unit.id,
        target_kind: unit.target_kind,
        cfg: unit.cfg,
        components: unit.components.remove(i),
    }
}

/// A component contributes one crate if its source path is accepted, and none
/// otherwise; the crate has the component's name and lies in the directory of
/// its source path.
pub proof fn lemma_at_most_one_crate_per_component(
    packages: Seq<PackageModel>,
    unit: CompilationUnitModel,
    component: ComponentModel,
    fs: Seq<FsEntryModel>,
)
    ensures
        accepted(component, fs) ==> {
            let crates = component_resolution(packages, unit, component, fs).crates;
            &&& crates.len() == 1
            &&& crates[0].name == component.name
            &&& crates[0].root == validated(component.source_path, fs)->Ok_0.0
        },
        !accepted(component, fs) ==> component_resolution(packages, unit, component, fs).crates
            == Seq::<crate::project::CrateModel>::empty(),
{
}

proof fn lemma_accepted_components(
    packages: Seq<PackageModel>,
    unit: CompilationUnitModel,
    fs: Seq<FsEntryModel>,
    n: int,
)
    requires
        0 <= n <= unit.components.len(),
        forall|k: int| 0 <= k < n ==> accepted(#[trigger] unit.components[k], fs),
    ensures
        components_resolution(packages, unit, fs, n).crates.len() == n,
        forall|k: int|
            0 <= k < n ==> {
                let made = #[trigger] components_resolution(packages, unit, fs, n).crates[k];
                &&& made.name == unit.components[k].name
                &&& made.root == validated(unit.components[k].source_path, fs)->Ok_0.0
            },
    decreases n,
{
    if n > 0 {
        lemma_accepted_components(packages, unit, fs, n - 1);
        let done = components_resolution(packages, unit, fs, n - 1).crates;
        let one = component_resolution(packages, unit, unit.components[n - 1], fs).crates;
        assert(accepted(unit.components[n - 1], fs));
        lemma_at_most_one_crate_per_component(packages, unit, unit.components[n - 1], fs);
        let all = components_resolution(packages, unit, fs, n).crates;
        assert(all == done + one);
        assert forall|k: int| 0 <= k < n implies {
            let made = #[trigger] all[k];
            &&& made.name == unit.components[k].name
            &&& made.root == validated(unit.components[k].source_path, fs)->Ok_0.0
        } by {
            if k < n - 1 {
                assert(all[k] == done[k]);
            } else {
                assert(all[k] == one[0]);
            }
        }
    }
}

proof fn lemma_accepted_units(metadata: MetadataModel, fs: Seq<FsEntryModel>, n: int)
    requires
        0 <= n <= metadata.compilation_units.len(),
        forall|k: int|
            0 <= k < runtime_components(metadata, n).len() ==> accepted(
                #[trigger] runtime_components(metadata, n)[k],
                fs,
            ),
    ensures
        units_resolution(metadata, fs, n).crates.len() == runtime_components(metadata, n).len(),
        forall|k: int|
            0 <= k < runtime_components(metadata, n).len() ==> {
                let made = #[trigger] units_resolution(metadata, fs, n).crates[k];
                let component = runtime_components(metadata, n)[k];
                &&& made.name == component.name
                &&& made.root == validated(component.source_path, fs)->Ok_0.0
            },
    decreases n,
{
    if n > 0 {
        let unit = metadata.compilation_units[n - 1];
        let before = runtime_components(metadata, n - 1);
        let here = if is_plugin_unit(unit) {
            Seq::empty()
        } else {
            unit.components
        };
        let all = runtime_components(metadata, n);
        assert(all == before + here);
        assert forall|k: int| 0 <= k < before.len() implies accepted(#[trigger] before[k], fs) by {
            assert(all[k] == before[k]);
        }
        lemma_accepted_units(metadata, fs, n - 1);
        let done = units_resolution(metadata, fs, n - 1).crates;
        let made_here = unit_resolution(metadata.packages, unit, fs).crates;
        let crates = units_resolution(metadata, fs, n).crates;
        assert(crates == done + made_here);
        if is_plugin_unit(unit) {
            assert(crates =~= done);
            assert(all =~= before);
        } else {
            assert forall|j: int| 0 <= j < unit.components.len() implies accepted(
                #[trigger] unit.components[j],
                fs,
            ) by {
                assert(all[before.len() + j] == unit.components[j]);
            }
            lemma_accepted_components(
                metadata.packages,
                unit,
                fs,
                unit.components.len() as int,
            );
            assert forall|k: int| 0 <= k < all.len() implies {
                let made = #[trigger] crates[k];
                let component = all[k];
                &&& made.name == component.name
                &&& made.root == validated(component.source_path, fs)->Ok_0.0
            } by {
                if k < before.len() {
                    assert(crates[k] == done[k]);
                    assert(all[k] == before[k]);
                } else {
                    assert(crates[k] == made_here[k - before.len()]);
                    assert(all[k] == unit.components[k - before.len()]);
                }
            }
        }
    }
}

/// Where the source path of every component of every unit that is no plugin is
/// accepted, the document gives exactly one crate for each of these
/// components, in document order: the crate at an index has the name of the
/// component at that index and lies in the directory of its source path.
pub proof fn lemma_one_crate_per_component(metadata: MetadataModel, fs: Seq<FsEntryModel>)
    requires
        forall|k: int|
            0 <= k < runtime_components(metadata, metadata.compilation_units.len() as int).len()
                ==> accepted(
                #[trigger] runtime_components(metadata, metadata.compilation_units.len() as int)[k],
                fs,
            ),
    ensures
        resolved(Some(metadata), fs).crates.len() == runtime_components(
            metadata,
            metadata.compilation_units.len() as int,
        ).len(),
        forall|k: int|
            0 <= k < runtime_components(metadata, metadata.compilation_units.len() as int).len()
                ==> {
                let made = #[trigger] resolved(Some(metadata), fs).crates[k];
                let component = runtime_components(
                    metadata,
                    metadata.compilation_units.len() as int,
                )[k];
                &&& made.name == component.name
                &&& made.root == validated(component.source_path, fs)->Ok_0.0
            },
{
    lemma_accepted_units(metadata, fs, metadata.compilation_units.len() as int);
}

/// Where the build tool failed there is no metadata, and without metadata the
/// derivation gives no crate and has nothing to log: it does not fail.
pub proof fn lemma_failed_fetch_gives_no_crates(
    manifest_path: Seq<char>,
    cause: Seq<char>,
    fs: Seq<FsEntryModel>,
)
    ensures
        fetched(manifest_path, Err(cause)).metadata is None,
        resolved(fetched(manifest_path, Err(cause)).metadata, fs) == ResolutionModel::empty(),
{
}

proof fn lemma_member_files(metadata: MetadataModel, known: Seq<Seq<char>>, n: int)
    requires
        0 <= n <= metadata.workspace_members.len(),
    ensures
        member_files(metadata, known, n).no_duplicates(),
        forall|file: Seq<char>|
            #![trigger member_files(metadata, known, n).contains(file)]
            member_files(metadata, known, n).contains(file) <==> !known.contains(file) && exists|
                i: int,
            |
                0 <= i < n && #[trigger] member_manifest(metadata, i) == Some(file),
    decreases n,
{
    if n > 0 {
        lemma_member_files(metadata, known, n - 1);
        let before = member_files(metadata, known, n - 1);
        let all = member_files(metadata, known, n);
        let last = member_manifest(metadata, n - 1);
        assert forall|file: Seq<char>| #![trigger all.contains(file)] all.contains(file) <==> (
        !known.contains(file) && exists|i: int|
            0 <= i < n && #[trigger] member_manifest(metadata, i) == Some(file)) by {
            if all.contains(file) {
                if before.contains(file) {
                    let i = choose|i: int|
                        0 <= i < n - 1 && #[trigger] member_manifest(metadata, i) == Some(file);
                    assert(0 <= i < n && member_manifest(metadata, i) == Some(file));
                } else {
                    let at = choose|at: int| 0 <= at < all.len() && all[at] == file;
                    if at < before.len() {
                        assert(before[at] == file);
                    }
                    assert(last == Some(file));
                    assert(0 <= n - 1 < n && member_manifest(metadata, n - 1) == Some(file));
                }
            }
            if !known.contains(file) && exists|i: int|
                0 <= i < n && #[trigger] member_manifest(metadata, i) == Some(file) {
                let i = choose|i: int|
                    0 <= i < n && #[trigger] member_manifest(metadata, i) == Some(file);
                if i < n - 1 {
                    assert(before.contains(file));
                    let at = choose|at: int| 0 <= at < before.len() && before[at] == file;
                    assert(all[at] == file);
                } else if !before.contains(file) {
                    assert(all == before.push(file));
                    assert(all[before.len() as int] == file);
                } else {
                    let at = choose|at: int| 0 <= at < before.len() && before[at] == file;
                    assert(all[at] == file);
                }
            }
        }
        match last {
            Some(file) => {
                if !known.contains(file) && !before.contains(file) {
                    assert(all == before.push(file));
                    assert forall|i: int, j: int|
                        0 <= i < all.len() && 0 <= j < all.len() && i != j implies all[i]
                        != all[j] by {
                        if i < before.len() {
                            assert(before.contains(before[i]));
                        }
                        if j < before.len() {
                            assert(before.contains(before[j]));
                        }
                    }
                }
            },
            None => {},
        }
    }
}

/// Whether `file` is the manifest of a member of the workspace that the run's
/// metadata has a package for.
pub open spec fn is_member_manifest(
    outcome: Result<MetadataModel, Seq<char>>,
    file: Seq<char>,
) -> bool {
    outcome matches Ok(metadata) && exists|i: int|
        0 <= i < metadata.workspace_members.len() && #[trigger] member_manifest(metadata, i)
            == Some(file)
}

/// Over the plan and the report of one run, no file is tracked twice, and a
/// file is tracked exactly if it is the manifest, the lock file, or the
/// manifest of a member of the workspace that the metadata has a package for.
pub proof fn lemma_each_file_is_tracked_once(
    manifest_path: Seq<char>,
    lock_path: Seq<char>,
    outcome: Result<MetadataModel, Seq<char>>,
)
    ensures
        all_tracked(manifest_path, lock_path, outcome).no_duplicates(),
        forall|file: Seq<char>|
            #![trigger all_tracked(manifest_path, lock_path, outcome).contains(file)]
            all_tracked(manifest_path, lock_path, outcome).contains(file) <==> file
                == manifest_path || file == lock_path || is_member_manifest(outcome, file),
{
    let known = tracked_before(manifest_path, lock_path);
    let later = reported(manifest_path, lock_path, outcome).tracked_files;
    let all = all_tracked(manifest_path, lock_path, outcome);
    assert(all == known + later);
    assert(known.no_duplicates());
    assert forall|file: Seq<char>| known.contains(file) <==> file == manifest_path || file
        == lock_path by {
        if known.contains(file) {
            let at = choose|at: int| 0 <= at < known.len() && known[at] == file;
        }
        assert(known[0] == manifest_path);
        if lock_path != manifest_path {
            assert(known[1] == lock_path);
        }
    }
    match outcome {
        Ok(metadata) => {
            lemma_member_files(metadata, known, metadata.workspace_members.len() as int);
        },
        Err(_) => {
            assert(later =~= Seq::empty());
        },
    }
    assert forall|file: Seq<char>| later.contains(file) <==> !known.contains(file)
        && is_member_manifest(outcome, file) by {}
    assert forall|i: int, j: int|
        0 <= i < all.len() && 0 <= j < all.len() && i != j implies all[i] != all[j] by {
        if i < known.len() && j >= known.len() {
            assert(known.contains(known[i]));
            assert(later.contains(later[j - known.len()]));
        }
        if j < known.len() && i >= known.len() {
            assert(known.contains(known[j]));
            assert(later.contains(later[i - known.len()]));
        }
    }
    assert forall|file: Seq<char>| #![trigger all.contains(file)] all.contains(file) <==> file
        == manifest_path || file == lock_path || is_member_manifest(outcome, file) by {
        if all.contains(file) {
            let at = choose|at: int| 0 <= at < all.len() && all[at] == file;
            if at < known.len() {
                assert(known.contains(known[at]));
            } else {
                assert(later.contains(later[at - known.len()]));
            }
        }
        if known.contains(file) {
            let at = choose|at: int| 0 <= at < known.len() && known[at] == file;
            assert(all[at] == file);
        } else if later.contains(file) {
            let at = choose|at: int| 0 <= at < later.len() && later[at] == file;
            assert(all[known.len() + at] == file);
        }
    }
}

/// The manifest and the lock file beside it are tracked before the build tool
/// runs, whatever the run then comes to, so that a run that failed is made
/// again once one of them changes. The result is never taken from the cache
/// exactly where the run failed, and is of low durability otherwise.
pub proof fn lemma_manifest_and_lock_are_tracked_before_the_run(manifest_path: Seq<char>)
    ensures
        planned(ProjectManifestPathModel::Scarb(manifest_path)) matches FetchPlanModel::Invoke {
            tracked_files,
            ..
        } && tracked_files.contains(manifest_path) && tracked_files.contains(
            sibling_of(manifest_path, lock_file_name()),
        ) && tracked_files.no_duplicates(),
        forall|outcome: Result<MetadataModel, Seq<char>>|
            (#[trigger] fetched(manifest_path, outcome)).mark == (if outcome is Err {
                CacheMark::Untracked
            } else {
                CacheMark::LowDurability
            }) && (fetched(manifest_path, outcome).metadata is None <==> outcome is Err),
{
    let lock_path = sibling_of(manifest_path, lock_file_name());
    let files = tracked_before(manifest_path, lock_path);
    assert(files[0] == manifest_path);
    if lock_path != manifest_path {
        assert(files[1] == lock_path);
    }
}

/// A source path that is a directory is not accepted.
pub proof fn lemma_directory_is_not_accepted(component: ComponentModel, fs: Seq<FsEntryModel>)
    requires
        status_of(fs, component.source_path) == PathStatus::Directory,
    ensures
        validated(component.source_path, fs) == Err::<(Seq<char>, Seq<char>), _>(
            SourcePathDefect::IsDirectory,
        ),
        !accepted(component, fs),
{
}

proof fn lemma_siblings_before(
    packages: Seq<PackageModel>,
    unit: CompilationUnitModel,
    fs: Seq<FsEntryModel>,
    i: int,
    n: int,
)
    requires
        0 <= n <= i < unit.components.len(),
    ensures
        components_resolution(packages, unit, fs, n) == components_resolution(
            packages,
            without_component(unit, i),
            fs,
            n,
        ),
    decreases n,
{
    if n > 0 {
        lemma_siblings_before(packages, unit, fs, i, n - 1);
        assert(without_component(unit, i).components[n - 1] == unit.components[n - 1]);
    }
}

proof fn lemma_siblings_after(
    packages: Seq<PackageModel>,
    unit: CompilationUnitModel,
    fs: Seq<FsEntryModel>,
    i: int,
    n: int,
)
    requires
        0 <= i < n <= unit.components.len(),
        !accepted(unit.components[i], fs),
    ensures
        components_resolution(packages, unit, fs, n).crates == components_resolution(
            packages,
            without_component(unit, i),
            fs,
            n - 1,
        ).crates,
    decreases n,
{
    let rest = without_component(unit, i);
    if n == i + 1 {
        lemma_siblings_before(packages, unit, fs, i, i);
        lemma_at_most_one_crate_per_component(packages, unit, unit.components[i], fs);
        assert(components_resolution(packages, unit, fs, n).crates =~= components_resolution(
            packages,
            unit,
            fs,
            i,
        ).crates);
    } else {
        lemma_siblings_after(packages, unit, fs, i, n - 1);
        assert(rest.components[n - 2] == unit.components[n - 1]);
    }
}

/// A component whose source path is not accepted gives no crate, and the other
/// components of its unit give the crates that they would give without it.
pub proof fn lemma_rejected_component_is_dropped(
    packages: Seq<PackageModel>,
    unit: CompilationUnitModel,
    fs: Seq<FsEntryModel>,
    i: int,
)
    requires
        0 <= i < unit.components.len(),
        !accepted(unit.components[i], fs),
    ensures
        component_resolution(packages, unit, unit.components[i], fs).crates == Seq::<
            crate::project::CrateModel,
        >::empty(),
        unit_resolution(packages, unit, fs).crates == unit_resolution(
            packages,
            without_component(unit, i),
            fs,
        ).crates,
{
    lemma_at_most_one_crate_per_component(packages, unit, unit.components[i], fs);
    if !is_plugin_unit(unit) {
        lemma_siblings_after(packages, unit, fs, i, unit.components.len() as int);
    }
}

/// A component whose source path is a directory gives no crate and a warning
/// that names it, and the other components of its unit give the crates that
/// they would give without it.
pub proof fn lemma_directory_component_is_dropped(
    packages: Seq<PackageModel>,
    unit: CompilationUnitModel,
    fs: Seq<FsEntryModel>,
    i: int,
)
    requires
        0 <= i < unit.components.len(),
        status_of(fs, unit.components[i].source_path) == PathStatus::Directory,
    ensures
        component_resolution(packages, unit, unit.components[i], fs).crates == Seq::<
            crate::project::CrateModel,
        >::empty(),
        component_resolution(packages, unit, unit.components[i], fs).diagnostics.last()
            == (DiagnosticModel::ComponentSkipped {
            error: SourcePathErrorModel {
                defect: SourcePathDefect::IsDirectory,
                component: unit.components[i].name,
                source_path: unit.components[i].source_path,
            },
        }),
        unit_resolution(packages, unit, fs).crates == unit_resolution(
            packages,
            without_component(unit, i),
            fs,
        ).crates,
{
    lemma_directory_is_not_accepted(unit.components[i], fs);
    lemma_rejected_component_is_dropped(packages, unit, fs, i);
}

/// Where the package of a component declares an edition that is not known, and
/// the component's source path is accepted, the component still gives its
/// crate: with the default edition, and with a warning that names the
/// component and the edition.
pub proof fn lemma_unknown_edition_gives_default(
    packages: Seq<PackageModel>,
    unit: CompilationUnitModel,
    component: ComponentModel,
    fs: Seq<FsEntryModel>,
    text: Seq<char>,
)
    requires
        lookup_package(packages, component.package) matches Some(package) && package.edition
            == Some(text),
        known_edition(text) is None,
        accepted(component, fs),
    ensures
        component_resolution(packages, unit, component, fs).crates.len() == 1,
        component_resolution(packages, unit, component, fs).crates[0].settings.edition
            == default_edition(),
        component_resolution(packages, unit, component, fs).diagnostics.contains(
            DiagnosticModel::EditionInvalid { component: component.name, edition: text },
        ),
{
    let diagnostics = component_resolution(packages, unit, component, fs).diagnostics;
    assert(diagnostics[0] == DiagnosticModel::EditionInvalid {
        component: component.name,
        edition: text,
    });
}

/// Two derivations from equal documents and equal states of the file system
/// give equal results, crate by crate and message by message.
pub proof fn lemma_derivation_is_repeatable(
    first: Option<MetadataModel>,
    first_fs: Seq<FsEntryModel>,
    second: Option<MetadataModel>,
    second_fs: Seq<FsEntryModel>,
)
    requires
        first == second,
        first_fs == second_fs,
    ensures
        resolved(first, first_fs) == resolved(second, second_fs),
{
}

proof fn lemma_components_do_not_miss_core(
    packages: Seq<PackageModel>,
    unit: CompilationUnitModel,
    fs: Seq<FsEntryModel>,
    n: int,
)
    requires
        0 <= n <= unit.components.len(),
    ensures
        !components_resolution(packages, unit, fs, n).diagnostics.contains(
            DiagnosticModel::CoreMissing,
        ),
    decreases n,
{
    if n > 0 {
        lemma_components_do_not_miss_core(packages, unit, fs, n - 1);
        let done = components_resolution(packages, unit, fs, n - 1).diagnostics;
        let one = component_resolution(packages, unit, unit.components[n - 1], fs).diagnostics;
        assert forall|j: int| 0 <= j < one.len() implies one[j] != DiagnosticModel::CoreMissing by {}
        let all = components_resolution(packages, unit, fs, n).diagnostics;
        assert(all == done + one);
        assert forall|j: int| 0 <= j < all.len() implies all[j] != DiagnosticModel::CoreMissing by {
            if j < done.len() {
                assert(done.contains(done[j]));
            } else {
                assert(all[j] == one[j - done.len()]);
            }
        }
    }
}

proof fn lemma_units_do_not_miss_core(metadata: MetadataModel, fs: Seq<FsEntryModel>, n: int)
    requires
        0 <= n <= metadata.compilation_units.len(),
    ensures
        !units_resolution(metadata, fs, n).diagnostics.contains(DiagnosticModel::CoreMissing),
    decreases n,
{
    if n > 0 {
        lemma_units_do_not_miss_core(metadata, fs, n - 1);
        let unit = metadata.compilation_units[n - 1];
        let done = units_resolution(metadata, fs, n - 1).diagnostics;
        let one = unit_resolution(metadata.packages, unit, fs).diagnostics;
        if !is_plugin_unit(unit) {
            lemma_components_do_not_miss_core(
                metadata.packages,
                unit,
                fs,
                unit.components.len() as int,
            );
        }
        let all = units_resolution(metadata, fs, n).diagnostics;
        assert(all == done + one);
        assert forall|j: int| 0 <= j < all.len() implies all[j] != DiagnosticModel::CoreMissing by {
            if j < done.len() {
                assert(done.contains(done[j]));
            } else {
                assert(all[j] == one[j - done.len()]);
                assert(one.contains(one[j - done.len()]));
            }
        }
    }
}

/// Whether the standard library is among the crates or not, the derivation
/// gives every crate that the units give. It says that the standard library is
/// missing exactly where none of these crates is the standard library, and it
/// says so last.
pub proof fn lemma_missing_core_is_reported(metadata: MetadataModel, fs: Seq<FsEntryModel>)
    ensures
        resolved(Some(metadata), fs).crates == units_resolution(
            metadata,
            fs,
            metadata.compilation_units.len() as int,
        ).crates,
        resolved(Some(metadata), fs).diagnostics.contains(DiagnosticModel::CoreMissing)
            <==> !has_core(resolved(Some(metadata), fs).crates),
        !has_core(resolved(Some(metadata), fs).crates) ==> resolved(
            Some(metadata),
            fs,
        ).diagnostics.last() == DiagnosticModel::CoreMissing,
{
    let units = units_resolution(metadata, fs, metadata.compilation_units.len() as int);
    lemma_units_do_not_miss_core(metadata, fs, metadata.compilation_units.len() as int);
    let all = metadata_resolution(metadata, fs);
    if !has_core(units.crates) {
        assert(all.diagnostics[units.diagnostics.len() as int] == DiagnosticModel::CoreMissing);
    }
}

} // verus!
