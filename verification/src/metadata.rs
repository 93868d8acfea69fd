//! The part of a workspace's metadata document that crate derivation reads.

use vstd::prelude::*;

verus! {

/// An option of the `#[cfg(...)]` attribute, as the build tool reports it.
#[derive(Clone, Debug, PartialEq, Eq)]
pub enum Cfg {
    /// `#[cfg(key: "value")]`
    KV(String, String),
    /// `#[cfg(name)]`
    Name(String),
}

/// Mathematical model of a [`Cfg`].
pub enum CfgModel {
    KV(Seq<char>, Seq<char>),
    Name(Seq<char>),
}

impl DeepView for Cfg {
    type V = CfgModel;

    open spec fn deep_view(&self) -> CfgModel {
        match self {
            Cfg::KV(key, value) => CfgModel::KV(key@, value@),
            Cfg::Name(name) => CfgModel::Name(name@),
        }
    }
}

impl View for Cfg {
    type V = CfgModel;

    open spec fn view(&self) -> CfgModel {
        self.deep_view()
    }
}

/// One named source entry point of a compilation unit.
#[derive(Clone, Debug, PartialEq, Eq)]
pub struct Component {
    /// Name of the crate that the component becomes.
    pub name: String,
    /// Identifier of the package that owns the component.
    pub package: String,
    /// Path of the component's entry source file.
    pub source_path: String,
    /// Options of the component, which take precedence over those of its unit.
    pub cfg: Option<Vec<Cfg>>,
}

/// Mathematical model of a [`Component`].
pub struct ComponentModel {
    pub name: Seq<char>,
    pub package: Seq<char>,
    pub source_path: Seq<char>,
    pub cfg: Option<Seq<CfgModel>>,
}

impl DeepView for Component {
    type V = ComponentModel;

    open spec fn deep_view(&self) -> ComponentModel {
        ComponentModel {
            name: self.name@,
            package: self.package@,
            source_path: self.source_path@,
            cfg: self.cfg.deep_view(),
        }
    }
}

impl View for Component {
    type V = ComponentModel;

    open spec fn view(&self) -> ComponentModel {
        self.deep_view()
    }
}

/// A group of components that the build tool compiles together.
#[derive(Clone, Debug, PartialEq, Eq)]
pub struct CompilationUnit {
    /// Identifier of the unit.
    pub id: String,
    /// Kind of the unit's target, such as `lib` or `cairo-plugin`.
    pub target_kind: String,
    /// Options that hold for every component without options of its own.
    pub cfg: Vec<Cfg>,
    /// Components of the unit, in document order.
    pub components: Vec<Component>,
}

/// Mathematical model of a [`CompilationUnit`].
pub struct CompilationUnitModel {
    pub id: Seq<char>,
    pub target_kind: Seq<char>,
    pub cfg: Seq<CfgModel>,
    pub components: Seq<ComponentModel>,
}

impl DeepView for CompilationUnit {
    type V = CompilationUnitModel;

    open spec fn deep_view(&self) -> CompilationUnitModel {
        CompilationUnitModel {
            id: self.id@,
            target_kind: self.target_kind@,
            cfg: self.cfg.deep_view(),
            components: self.components.deep_view(),
        }
    }
}

impl View for CompilationUnit {
    type V = CompilationUnitModel;

    open spec fn view(&self) -> CompilationUnitModel {
        self.deep_view()
    }
}

/// A package of the workspace or of its dependencies.
#[derive(Clone, Debug, PartialEq, Eq)]
pub struct Package {
    /// Identifier of the package.
    pub id: String,
    /// Edition that the package declares, if it declares one.
    pub edition: Option<String>,
    /// Names of the experimental features that the package switches on.
    pub experimental_features: Vec<String>,
    /// Path of the package's manifest file.
    pub manifest_path: String,
}

/// Mathematical model of a [`Package`].
pub struct PackageModel {
    pub id: Seq<char>,
    pub edition: Option<Seq<char>>,
    pub experimental_features: Seq<Seq<char>>,
    pub manifest_path: Seq<char>,
}

impl DeepView for Package {
    type V = PackageModel;

    open spec fn deep_view(&self) -> PackageModel {
        PackageModel {
            id: self.id@,
            edition: self.edition.deep_view(),
            experimental_features: self.experimental_features.deep_view(),
            manifest_path: self.manifest_path@,
        }
    }
}

impl View for Package {
    type V = PackageModel;

    open spec fn view(&self) -> PackageModel {
        self.deep_view()
    }
}

/// The metadata document of one workspace.
#[derive(Clone, Debug, PartialEq, Eq)]
pub struct Metadata {
    /// Identifiers of the packages that are members of the workspace.
    pub workspace_members: Vec<String>,
    /// All packages that the document describes.
    pub packages: Vec<Package>,
    /// All compilation units, in document order.
    pub compilation_units: Vec<CompilationUnit>,
}

/// Mathematical model of a [`Metadata`].
pub struct MetadataModel {
    pub workspace_members: Seq<Seq<char>>,
    pub packages: Seq<PackageModel>,
    pub compilation_units: Seq<CompilationUnitModel>,
}

impl DeepView for Metadata {
    type V = MetadataModel;

    open spec fn deep_view(&self) -> MetadataModel {
        MetadataModel {
            workspace_members: self.workspace_members.deep_view(),
            packages: self.packages.deep_view(),
            compilation_units: self.compilation_units.deep_view(),
        }
    }
}

impl View for Metadata {
    type V = MetadataModel;

    open spec fn view(&self) -> MetadataModel {
        self.deep_view()
    }
}

/// Index of the first package in `packages[from..]` whose identifier is `id`,
/// or the length of `packages` if there is none.
pub open spec fn first_package_from(packages: Seq<PackageModel>, id: Seq<char>, from: int) -> int
    decreases packages.len() - from,
{
    if from < 0 || from >= packages.len() {
        packages.len() as int
    } else if packages[from].id == id {
        from
    } else {
        first_package_from(packages, id, from + 1)
    }
}

/// The first package whose identifier is `id`, if the document has one.
pub open spec fn lookup_package(packages: Seq<PackageModel>, id: Seq<char>) -> Option<PackageModel> {
    let at = first_package_from(packages, id, 0);
    if at < packages.len() {
        Some(packages[at])
    } else {
        None
    }
}

/// What `first_package_from` returns is the least matching index at or after
/// `from`.
pub proof fn lemma_first_package_from(packages: Seq<PackageModel>, id: Seq<char>, from: int)
    requires
        0 <= from <= packages.len(),
    ensures
        from <= first_package_from(packages, id, from) <= packages.len(),
        first_package_from(packages, id, from) < packages.len() ==> packages[first_package_from(
            packages,
            id,
            from,
        )].id == id,
        forall|k: int|
            from <= k < first_package_from(packages, id, from) ==> (#[trigger] packages[k]).id
                != id,
    decreases packages.len() - from,
{
    if from < packages.len() && packages[from].id != id {
        lemma_first_package_from(packages, id, from + 1);
    }
}

impl Metadata {
    /// Finds the package with the given identifier: the first one, should the
    /// document list several.
    pub fn get_package(&self, id: &String) -> (found: Option<&Package>)
        ensures
            found.deep_view() == lookup_package(self@.packages, id@),
            found matches Some(p) ==> exists|i: int|
                0 <= i < self.packages@.len() && self.packages@[i] == *p,
    {
        let mut i: usize = 0;
        while i < self.packages.len()
            invariant
                0 <= i <= self.packages@.len(),
                first_package_from(self@.packages, id@, 0) == first_package_from(
                    self@.packages,
                    id@,
                    i as int,
                ),
            decreases self.packages@.len() - i,
        {
            let package = &self.packages[i];
            assert(self@.packages[i as int] == package@);
            if package.id == *id {
                return Some(package);
            }
            i += 1;
        }
        None
    }
}

} // verus!
