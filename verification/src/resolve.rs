//! Derivation of the crates of a project from its metadata.
//!
//! The derivation never fails. A component that cannot be used is left out with
//! a warning, and the other components of the same unit are derived as if it
//! were not there. Crates of the same name are not merged: they come out in
//! document order, and whoever keys them by name lets the later one win.

use vstd::prelude::*;
use crate::diagnostics::{Diagnostic, DiagnosticModel};
use crate::metadata::{
    lookup_package, CfgModel, CompilationUnitModel, ComponentModel, Metadata, MetadataModel,
    PackageModel,
};
use crate::project::{
    default_main_file_stem, text_eq, Crate, CrateModel, CrateSettings, CrateSettingsModel,
};
use crate::settings::{
    cfg_set_of, cfg_set_warning, package_edition, package_edition_warning,
    package_experimental_features, scarb_cfg_set_to_cairo, scarb_package_edition,
    scarb_package_experimental_features,
};
use crate::source_path::{
    validate_and_chop_source_path, validated, FsEntryModel, FsSnapshot, SourcePathErrorModel,
};

verus! {

/// What a derivation hands back: the crates, in document order, and what there
/// is to log, in the order in which it came up.
#[derive(Clone, Debug, PartialEq, Eq)]
pub struct Resolution {
    pub crates: Vec<Crate>,
    pub diagnostics: Vec<Diagnostic>,
}

/// Mathematical model of a [`Resolution`].
pub struct ResolutionModel {
    pub crates: Seq<CrateModel>,
    pub diagnostics: Seq<DiagnosticModel>,
}

impl DeepView for Resolution {
    type V = ResolutionModel;

    open spec fn deep_view(&self) -> ResolutionModel {
        ResolutionModel {
            crates: self.crates.deep_view(),
            diagnostics: self.diagnostics.deep_view(),
        }
    }
}

impl View for Resolution {
    type V = ResolutionModel;

    open spec fn view(&self) -> ResolutionModel {
        self.deep_view()
    }
}

impl ResolutionModel {
    /// No crate and nothing to log.
    pub open spec fn empty() -> ResolutionModel {
        ResolutionModel { crates: Seq::empty(), diagnostics: Seq::empty() }
    }

    /// This resolution followed by `next`.
    pub open spec fn followed_by(self, next: ResolutionModel) -> ResolutionModel {
        ResolutionModel {
            crates: self.crates + next.crates,
            diagnostics: self.diagnostics + next.diagnostics,
        }
    }
}

/// The items of `item`: one or none.
pub open spec fn option_seq<T>(item: Option<T>) -> Seq<T> {
    match item {
        Some(item) => seq![item],
        None => Seq::empty(),
    }
}

/// Whether a compilation unit builds a compiler plugin. Such a unit runs at
/// build time only and contributes no crate.
pub open spec fn is_plugin_unit(unit: CompilationUnitModel) -> bool {
    unit.target_kind == "cairo-plugin"@
}

/// The components of the first `n` compilation units that can become crates:
/// those of the units that are no plugins, in document order.
pub open spec fn runtime_components(metadata: MetadataModel, n: int) -> Seq<ComponentModel>
    decreases n,
{
    if n <= 0 {
        Seq::empty()
    } else {
        let unit = metadata.compilation_units[n - 1];
        runtime_components(metadata, n - 1) + if is_plugin_unit(unit) {
            Seq::empty()
        } else {
            unit.components
        }
    }
}

/// The options that hold for a component: its own, where it has some, else
/// those of its unit.
pub open spec fn component_cfg(unit: CompilationUnitModel, component: ComponentModel) -> Seq<
    CfgModel,
> {
    match component.cfg {
        Some(own) => own,
        None => unit.cfg,
    }
}

/// The stem of a crate's entry file as the crate records it: only where it is
/// not the usual one.
pub open spec fn custom_main_file_stem(file_stem: Seq<char>) -> Option<Seq<char>> {
    if file_stem == default_main_file_stem() {
        None
    } else {
        Some(file_stem)
    }
}

/// The crate of a component with an accepted source path.
pub open spec fn assembled(
    name: Seq<char>,
    root: Seq<char>,
    file_stem: Seq<char>,
    settings: CrateSettingsModel,
) -> CrateModel {
    CrateModel { name, root, custom_main_file_stem: custom_main_file_stem(file_stem), settings }
}

/// The settings of the crate of `component`, whose package is `package`.
pub open spec fn component_settings(
    package: Option<PackageModel>,
    unit: CompilationUnitModel,
    component: ComponentModel,
) -> CrateSettingsModel {
    CrateSettingsModel {
        edition: package_edition(package),
        cfg_set: cfg_set_of(component_cfg(unit, component)),
        experimental_features: package_experimental_features(package),
    }
}

/// What one component of a unit that is no plugin contributes: its crate, if
/// its source path is accepted, and its warnings.
pub open spec fn component_resolution(
    packages: Seq<PackageModel>,
    unit: CompilationUnitModel,
    component: ComponentModel,
    fs: Seq<FsEntryModel>,
) -> ResolutionModel {
    let package = lookup_package(packages, component.package);
    let missing = if package is None {
        seq![DiagnosticModel::PackageMissing { component: component.name }]
    } else {
        Seq::empty()
    };
    match validated(component.source_path, fs) {
        Err(defect) => ResolutionModel {
            crates: Seq::empty(),
            diagnostics: missing.push(
                DiagnosticModel::ComponentSkipped {
                    error: SourcePathErrorModel {
                        defect,
                        component: component.name,
                        source_path: component.source_path,
                    },
                },
            ),
        },
        Ok((root, file_stem)) => ResolutionModel {
            crates: seq![
                assembled(
                    component.name,
                    root,
                    file_stem,
                    component_settings(package, unit, component),
                ),
            ],
            diagnostics: missing + option_seq(package_edition_warning(package, component.name))
                + option_seq(
                cfg_set_warning(cfg_set_of(component_cfg(unit, component)), component.name),
            ),
        },
    }
}

/// What the first `n` components of a unit that is no plugin contribute.
pub open spec fn components_resolution(
    packages: Seq<PackageModel>,
    unit: CompilationUnitModel,
    fs: Seq<FsEntryModel>,
    n: int,
) -> ResolutionModel
    decreases n,
{
    if n <= 0 {
        ResolutionModel::empty()
    } else {
        components_resolution(packages, unit, fs, n - 1).followed_by(
            component_resolution(packages, unit, unit.components[n - 1], fs),
        )
    }
}

/// What one compilation unit contributes.
pub open spec fn unit_resolution(
    packages: Seq<PackageModel>,
    unit: CompilationUnitModel,
    fs: Seq<FsEntryModel>,
) -> ResolutionModel {
    if is_plugin_unit(unit) {
        ResolutionModel {
            crates: Seq::empty(),
            diagnostics: seq![DiagnosticModel::PluginUnitSkipped { unit: unit.id }],
        }
    } else {
        components_resolution(packages, unit, fs, unit.components.len() as int)
    }
}

/// What the first `n` compilation units of a document contribute.
pub open spec fn units_resolution(metadata: MetadataModel, fs: Seq<FsEntryModel>, n: int) -> ResolutionModel
    decreases n,
{
    if n <= 0 {
        ResolutionModel::empty()
    } else {
        units_resolution(metadata, fs, n - 1).followed_by(
            unit_resolution(metadata.packages, metadata.compilation_units[n - 1], fs),
        )
    }
}

/// Whether one of the crates is the standard library.
pub open spec fn has_core(crates: Seq<CrateModel>) -> bool {
    exists|i: int| 0 <= i < crates.len() && (#[trigger] crates[i]).is_core()
}

/// The crates of a metadata document: what its units contribute, and a last
/// warning where the standard library is not among them.
pub open spec fn metadata_resolution(metadata: MetadataModel, fs: Seq<FsEntryModel>) -> ResolutionModel {
    let units = units_resolution(metadata, fs, metadata.compilation_units.len() as int);
    if has_core(units.crates) {
        units
    } else {
        ResolutionModel {
            crates: units.crates,
            diagnostics: units.diagnostics.push(DiagnosticModel::CoreMissing),
        }
    }
}

/// The crates of a project: none, and nothing to log, where there is no
/// metadata.
pub open spec fn resolved(metadata: Option<MetadataModel>, fs: Seq<FsEntryModel>) -> ResolutionModel {
    match metadata {
        Some(metadata) => metadata_resolution(metadata, fs),
        None => ResolutionModel::empty(),
    }
}

/// Makes the crate of a component whose source path was chopped into `root` and
/// `file_stem`.
pub fn component_crate(crate_name: &str, root: String, file_stem: String, settings: CrateSettings) -> (made:
    Crate)
    ensures
        made@ == assembled(crate_name@, root@, file_stem@, settings@),
{
    let custom_main_file_stem = if text_eq(file_stem.as_str(), "lib") {
        None
    } else {
        Some(file_stem)
    };
    Crate { name: crate_name.to_owned(), root, custom_main_file_stem, settings }
}

/// Appends a diagnostic, where there is one.
fn note(diagnostics: &mut Vec<Diagnostic>, diagnostic: Option<Diagnostic>)
    ensures
        final(diagnostics).deep_view() == old(diagnostics).deep_view() + option_seq(
            diagnostic.deep_view(),
        ),
{
    match diagnostic {
        Some(diagnostic) => {
            diagnostics.push(diagnostic);
            assert(diagnostics.deep_view() =~= old(diagnostics).deep_view() + seq![
                diagnostic.deep_view(),
            ]);
        },
        None => {
            assert(diagnostics.deep_view() =~= old(diagnostics).deep_view() + Seq::empty());
        },
    }
}

/// Appends a crate.
fn keep(crates: &mut Vec<Crate>, made: Crate)
    ensures
        final(crates).deep_view() == old(crates).deep_view() + seq![made@],
{
    crates.push(made);
    assert(crates.deep_view() =~= old(crates).deep_view() + seq![made@]);
}

/// Whether one of `crates` is the standard library.
pub fn any_core(crates: &Vec<Crate>) -> (found: bool)
    ensures
        found == has_core(crates.deep_view()),
{
    let mut i: usize = 0;
    while i < crates.len()
        invariant
            0 <= i <= crates@.len(),
            forall|k: int| 0 <= k < i ==> !(#[trigger] crates.deep_view()[k]).is_core(),
        decreases crates@.len() - i,
    {
        if crates[i].is_core() {
            assert(crates.deep_view()[i as int].is_core());
            return true;
        }
        i += 1;
    }
    false
}

/// Gets the list of crates of a project from its metadata and the state of the
/// file system.
///
/// Without metadata there is no crate and nothing to log. Otherwise every
/// component of every unit that is no plugin gives one crate, unless its source
/// path is not accepted; what went wrong on the way is in the diagnostics, and a
/// result without the standard library ends with a warning that says so.
pub fn project_crates(metadata: Option<&Metadata>, fs: &FsSnapshot) -> (resolution: Resolution)
    ensures
        resolution@ == resolved(metadata.deep_view(), fs@),
{
    let mut crates: Vec<Crate> = Vec::new();
    let mut diagnostics: Vec<Diagnostic> = Vec::new();
    let metadata = match metadata {
        Some(metadata) => metadata,
        None => {
            assert(crates.deep_view() =~= Seq::empty());
            assert(diagnostics.deep_view() =~= Seq::empty());
            return Resolution { crates, diagnostics };
        },
    };
    assert(crates.deep_view() =~= Seq::empty());
    assert(diagnostics.deep_view() =~= Seq::empty());

    let mut u: usize = 0;
    while u < metadata.compilation_units.len()
        invariant
            0 <= u <= metadata.compilation_units@.len(),
            metadata@.compilation_units.len() == metadata.compilation_units@.len(),
            crates.deep_view() == units_resolution(metadata@, fs@, u as int).crates,
            diagnostics.deep_view() == units_resolution(metadata@, fs@, u as int).diagnostics,
        decreases metadata.compilation_units@.len() - u,
    {
        let unit = &metadata.compilation_units[u];
        let ghost before = units_resolution(metadata@, fs@, u as int);
        assert(metadata@.compilation_units[u as int] == unit@);
        if text_eq(unit.target_kind.as_str(), "cairo-plugin") {
            note(&mut diagnostics, Some(Diagnostic::PluginUnitSkipped { unit: unit.id.clone() }));
            assert(crates.deep_view() =~= before.crates + Seq::empty());
        } else {
            assert(crates.deep_view() =~= before.crates + Seq::empty());
            assert(diagnostics.deep_view() =~= before.diagnostics + Seq::empty());
            let mut c: usize = 0;
            while c < unit.components.len()
                invariant
                    0 <= c <= unit.components@.len(),
                    unit@.components.len() == unit.components@.len(),
                    crates.deep_view() == before.crates + components_resolution(
                        metadata@.packages,
                        unit@,
                        fs@,
                        c as int,
                    ).crates,
                    diagnostics.deep_view() == before.diagnostics + components_resolution(
                        metadata@.packages,
                        unit@,
                        fs@,
                        c as int,
                    ).diagnostics,
                decreases unit.components@.len() - c,
            {
                let component = &unit.components[c];
                let crate_name = component.name.as_str();
                let ghost done = components_resolution(metadata@.packages, unit@, fs@, c as int);
                let ghost one = component_resolution(metadata@.packages, unit@, component@, fs@);
                assert(unit@.components[c as int] == component@);

                let package = metadata.get_package(&component.package);
                if package.is_none() {
                    note(
                        &mut diagnostics,
                        Some(Diagnostic::PackageMissing { component: component.name.clone() }),
                    );
                } else {
                    note(&mut diagnostics, None);
                }

                match validate_and_chop_source_path(
                    component.source_path.as_str(),
                    crate_name,
                    fs,
                ) {
                    Ok((root, file_stem)) => {
                        let (edition, edition_warning) = scarb_package_edition(package, crate_name);
                        let cfg = match &component.cfg {
                            Some(own) => own,
                            None => &unit.cfg,
                        };
                        let (cfg_set, cfg_warning) = scarb_cfg_set_to_cairo(cfg, crate_name);
                        let settings = CrateSettings {
                            edition,
                            cfg_set,
                            experimental_features: scarb_package_experimental_features(package),
                        };
                        note(&mut diagnostics, edition_warning);
                        note(&mut diagnostics, cfg_warning);
                        keep(&mut crates, component_crate(crate_name, root, file_stem, settings));
                    },
                    Err(error) => {
                        note(&mut diagnostics, Some(Diagnostic::ComponentSkipped { error }));
                        assert(crates.deep_view() =~= before.crates + (done.crates
                            + Seq::empty()));
                    },
                }
                assert(crates.deep_view() =~= before.crates + (done.crates + one.crates));
                assert(diagnostics.deep_view() =~= before.diagnostics + (done.diagnostics
                    + one.diagnostics));
                c += 1;
            }
        }
        u += 1;
    }

    let ghost units = units_resolution(metadata@, fs@, metadata@.compilation_units.len() as int);
    if !any_core(&crates) {
        note(&mut diagnostics, Some(Diagnostic::CoreMissing));
        assert(diagnostics.deep_view() =~= units.diagnostics.push(DiagnosticModel::CoreMissing));
    }
    Resolution { crates, diagnostics }
}

/// The source paths that a derivation from `metadata` looks at in the file
/// system, in the order in which it does: those of the components of the units
/// that are no plugins. A snapshot of the file system for the derivation has to
/// say what is found at each of them.
pub fn source_paths(metadata: &Metadata) -> (paths: Vec<String>)
    ensures
        paths@.len() == runtime_components(
            metadata@,
            metadata@.compilation_units.len() as int,
        ).len(),
        forall|k: int|
            0 <= k < paths@.len() ==> (#[trigger] paths@[k])@ == runtime_components(
                metadata@,
                metadata@.compilation_units.len() as int,
            )[k].source_path,
{
    let mut paths: Vec<String> = Vec::new();
    let mut u: usize = 0;
    while u < metadata.compilation_units.len()
        invariant
            0 <= u <= metadata.compilation_units@.len(),
            metadata@.compilation_units.len() == metadata.compilation_units@.len(),
            paths@.len() == runtime_components(metadata@, u as int).len(),
            forall|k: int|
                0 <= k < paths@.len() ==> (#[trigger] paths@[k])@ == runtime_components(
                    metadata@,
                    u as int,
                )[k].source_path,
        decreases metadata.compilation_units@.len() - u,
    {
        let unit = &metadata.compilation_units[u];
        let ghost before = runtime_components(metadata@, u as int);
        assert(metadata@.compilation_units[u as int] == unit@);
        if !text_eq(unit.target_kind.as_str(), "cairo-plugin") {
            let mut c: usize = 0;
            while c < unit.components.len()
                invariant
                    0 <= c <= unit.components@.len(),
                    unit@.components.len() == unit.components@.len(),
                    paths@.len() == before.len() + c,
                    forall|k: int|
                        0 <= k < before.len() ==> (#[trigger] paths@[k])@ == before[k].source_path,
                    forall|k: int|
                        before.len() <= k < paths@.len() ==> (#[trigger] paths@[k])@
                            == unit@.components[k - before.len()].source_path,
                decreases unit.components@.len() - c,
            {
                let component = &unit.components[c];
                assert(unit@.components[c as int] == component@);
                paths.push(component.source_path.clone());
                c += 1;
            }
        }
        u += 1;
    }
    paths
}

} // verus!
