//! What derivation has to tell besides its result.
//!
//! Nothing here fails a call: a diagnostic is a value that is handed back, and
//! the caller sends it to its log at the diagnostic's severity.

use vstd::prelude::*;
use crate::source_path::{SourcePathDefect, SourcePathError, SourcePathErrorModel};

verus! {

/// How grave a diagnostic is.
#[derive(Clone, Copy, Debug, PartialEq, Eq, Structural)]
pub enum Severity {
    Debug,
    Warn,
    Error,
}

/// One message of a derivation.
#[derive(Clone, Debug, PartialEq, Eq)]
pub enum Diagnostic {
    /// A compilation unit was left out because it builds a compiler plugin.
    PluginUnitSkipped { unit: String },
    /// The document has no package for a component; its settings are defaults.
    PackageMissing { component: String },
    /// A component was left out because of its source path.
    ComponentSkipped { error: SourcePathError },
    /// A package declares an edition that is not known; the default is used.
    EditionInvalid { component: String, edition: String },
    /// The options of a component could not be converted; they are unknown.
    CfgSetUnknown { component: String },
    /// No crate of the result is the standard library.
    CoreMissing,
    /// Metadata was asked for a project that Scarb does not manage.
    NotScarbProject { manifest_path: String },
    /// The build tool failed to produce metadata.
    MetadataUnavailable { manifest_path: String, cause: String },
}

/// Mathematical model of a [`Diagnostic`].
pub enum DiagnosticModel {
    PluginUnitSkipped { unit: Seq<char> },
    PackageMissing { component: Seq<char> },
    ComponentSkipped { error: SourcePathErrorModel },
    EditionInvalid { component: Seq<char>, edition: Seq<char> },
    CfgSetUnknown { component: Seq<char> },
    CoreMissing,
    NotScarbProject { manifest_path: Seq<char> },
    MetadataUnavailable { manifest_path: Seq<char>, cause: Seq<char> },
}

impl DeepView for Diagnostic {
    type V = DiagnosticModel;

    open spec fn deep_view(&self) -> DiagnosticModel {
        match self {
            Diagnostic::PluginUnitSkipped { unit } => DiagnosticModel::PluginUnitSkipped {
                unit: unit@,
            },
            Diagnostic::PackageMissing { component } => DiagnosticModel::PackageMissing {
                component: component@,
            },
            Diagnostic::ComponentSkipped { error } => DiagnosticModel::ComponentSkipped {
                error: error@,
            },
            Diagnostic::EditionInvalid { component, edition } => DiagnosticModel::EditionInvalid {
                component: component@,
                edition: edition@,
            },
            Diagnostic::CfgSetUnknown { component } => DiagnosticModel::CfgSetUnknown {
                component: component@,
            },
            Diagnostic::CoreMissing => DiagnosticModel::CoreMissing,
            Diagnostic::NotScarbProject { manifest_path } => DiagnosticModel::NotScarbProject {
                manifest_path: manifest_path@,
            },
            Diagnostic::MetadataUnavailable {
                manifest_path,
                cause,
            } => DiagnosticModel::MetadataUnavailable { manifest_path: manifest_path@, cause: cause@ },
        }
    }
}

impl View for Diagnostic {
    type V = DiagnosticModel;

    open spec fn view(&self) -> DiagnosticModel {
        self.deep_view()
    }
}

impl SourcePathErrorModel {
    /// The error in words. Every message names the component.
    pub open spec fn message(self) -> Seq<char> {
        match self.defect {
            SourcePathDefect::Inaccessible => "io error when accessing source path of: "@
                + self.component,
            SourcePathDefect::IsDirectory => "source path of component `"@ + self.component
                + "` must not be a directory: "@ + self.source_path,
            SourcePathDefect::NoParent => "unexpected fs root as a source path of component `"@
                + self.component + "`: "@ + self.source_path,
            SourcePathDefect::ParentNotAbsolute => "source path of component `"@ + self.component
                + "` must be absolute: "@ + self.source_path,
            SourcePathDefect::NoFileStem => "failed to get file stem for component `"@
                + self.component + "`: "@ + self.source_path,
            SourcePathDefect::FileStemNotText => "file stem of component `"@ + self.component
                + "` is not utf-8: "@ + self.source_path,
        }
    }
}

/// `head`, `first`, `middle` and `second`, one after the other.
fn join4(head: &str, first: &str, middle: &str, second: &str) -> (text: String)
    ensures
        text@ == head@ + first@ + middle@ + second@,
{
    let mut text = head.to_owned();
    text.append(first);
    text.append(middle);
    text.append(second);
    text
}

/// `head` followed by `tail`.
fn join2(head: &str, tail: &str) -> (text: String)
    ensures
        text@ == head@ + tail@,
{
    let mut text = head.to_owned();
    text.append(tail);
    text
}

impl SourcePathError {
    /// The error in words.
    pub fn message(&self) -> (text: String)
        ensures
            text@ == self@.message(),
    {
        let component = self.component.as_str();
        let source_path = self.source_path.as_str();
        match self.defect {
            SourcePathDefect::Inaccessible => join2(
                "io error when accessing source path of: ",
                component,
            ),
            SourcePathDefect::IsDirectory => join4(
                "source path of component `",
                component,
                "` must not be a directory: ",
                source_path,
            ),
            SourcePathDefect::NoParent => join4(
                "unexpected fs root as a source path of component `",
                component,
                "`: ",
                source_path,
            ),
            SourcePathDefect::ParentNotAbsolute => join4(
                "source path of component `",
                component,
                "` must be absolute: ",
                source_path,
            ),
            SourcePathDefect::NoFileStem => join4(
                "failed to get file stem for component `",
                component,
                "`: ",
                source_path,
            ),
            SourcePathDefect::FileStemNotText => join4(
                "file stem of component `",
                component,
                "` is not utf-8: ",
                source_path,
            ),
        }
    }
}

impl DiagnosticModel {
    /// Severity of the diagnostic: a skipped plugin unit is worth a debug line,
    /// a failed build tool is an error, everything else is a warning.
    pub open spec fn severity(self) -> Severity {
        match self {
            DiagnosticModel::PluginUnitSkipped { .. } => Severity::Debug,
            DiagnosticModel::MetadataUnavailable { .. } => Severity::Error,
            _ => Severity::Warn,
        }
    }

    /// The diagnostic in words.
    pub open spec fn message(self) -> Seq<char> {
        match self {
            DiagnosticModel::PluginUnitSkipped { unit } => "skipping cairo plugin compilation unit: "@
                + unit,
            DiagnosticModel::PackageMissing {
                component,
            } => "package for component is missing in scarb metadata: "@ + component,
            DiagnosticModel::ComponentSkipped { error } => error.message(),
            DiagnosticModel::EditionInvalid { component, edition } => "failed to parse edition `"@
                + edition + "` of package: "@ + component,
            DiagnosticModel::CfgSetUnknown {
                component,
            } => "scarb metadata cfg did not convert identically to cairo one for crate: "@
                + component,
            DiagnosticModel::CoreMissing => "the `core` crate is missing in scarb metadata, will try to use unmanaged `core`"@,
            DiagnosticModel::NotScarbProject {
                manifest_path,
            } => "attempted to get scarb metadata for non-scarb project: "@ + manifest_path,
            DiagnosticModel::MetadataUnavailable {
                manifest_path,
                cause,
            } => "failed to reload scarb workspace: "@ + manifest_path + ": "@ + cause,
        }
    }

    /// The component that the diagnostic is about, for those that are about
    /// one.
    pub open spec fn component(self) -> Option<Seq<char>> {
        match self {
            DiagnosticModel::PackageMissing { component } => Some(component),
            DiagnosticModel::ComponentSkipped { error } => Some(error.component),
            DiagnosticModel::EditionInvalid { component, .. } => Some(component),
            DiagnosticModel::CfgSetUnknown { component } => Some(component),
            _ => None,
        }
    }
}

impl Diagnostic {
    /// Severity at which the diagnostic is to be logged.
    pub fn severity(&self) -> (severity: Severity)
        ensures
            severity == self@.severity(),
    {
        match self {
            Diagnostic::PluginUnitSkipped { .. } => Severity::Debug,
            Diagnostic::MetadataUnavailable { .. } => Severity::Error,
            _ => Severity::Warn,
        }
    }

    /// The diagnostic in words.
    pub fn message(&self) -> (text: String)
        ensures
            text@ == self@.message(),
    {
        match self {
            Diagnostic::PluginUnitSkipped { unit } => join2(
                "skipping cairo plugin compilation unit: ",
                unit.as_str(),
            ),
            Diagnostic::PackageMissing { component } => join2(
                "package for component is missing in scarb metadata: ",
                component.as_str(),
            ),
            Diagnostic::ComponentSkipped { error } => error.message(),
            Diagnostic::EditionInvalid { component, edition } => join4(
                "failed to parse edition `",
                edition.as_str(),
                "` of package: ",
                component.as_str(),
            ),
            Diagnostic::CfgSetUnknown { component } => join2(
                "scarb metadata cfg did not convert identically to cairo one for crate: ",
                component.as_str(),
            ),
            Diagnostic::CoreMissing => "the `core` crate is missing in scarb metadata, will try to use unmanaged `core`".to_owned(),
            Diagnostic::NotScarbProject { manifest_path } => join2(
                "attempted to get scarb metadata for non-scarb project: ",
                manifest_path.as_str(),
            ),
            Diagnostic::MetadataUnavailable { manifest_path, cause } => join4(
                "failed to reload scarb workspace: ",
                manifest_path.as_str(),
                ": ",
                cause.as_str(),
            ),
        }
    }

    /// Name of the component that the diagnostic is about, for those that are
    /// about one.
    pub fn component(&self) -> (name: Option<&String>)
        ensures
            name.deep_view() == self@.component(),
    {
        match self {
            Diagnostic::PackageMissing { component } => Some(component),
            Diagnostic::ComponentSkipped { error } => Some(&error.component),
            Diagnostic::EditionInvalid { component, .. } => Some(component),
            Diagnostic::CfgSetUnknown { component } => Some(component),
            _ => None,
        }
    }
}

} // verus!
