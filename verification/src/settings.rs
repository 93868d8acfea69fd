//! Settings of a crate, as far as the metadata document gives them.
//!
//! Each of the three mappings is total: what is missing or malformed falls back
//! to a default, with a warning where something was there and could not be
//! used.

use vstd::prelude::*;
use cairo_lang_filesystem::db::Edition as CairoEdition;
use crate::diagnostics::{Diagnostic, DiagnosticModel};
use crate::metadata::{Cfg, CfgModel, Package, PackageModel};
use crate::project::{
    contains_text, CfgOption, CfgOptionModel, CfgSet, Edition, ExperimentalFeaturesConfig,
};

verus! {

/// The error of `serde_json`, which the library only passes on.
#[verifier::external_type_specification]
#[verifier::external_body]
pub struct ExJsonError(serde_json::Error);

/// The edition that a package declares with the text `text`, if the text names
/// an edition.
pub open spec fn known_edition(text: Seq<char>) -> Option<Edition> {
    if text == "2023_01"@ {
        Some(Edition::V2023_01)
    } else if text == "2023_10"@ {
        Some(Edition::V2023_10)
    } else if text == "2023_11"@ {
        Some(Edition::V2023_11)
    } else {
        None
    }
}

/// The edition of a crate whose package declares none that is known.
pub open spec fn default_edition() -> Edition {
    Edition::V2023_01
}

/// The options that the compiler keeps for the options `options` of the
/// metadata document: what `serde_json::to_value` followed by
/// `serde_json::from_value` makes of them, as a list in the order of the
/// compiler's set, or `None` where one of the two fails.
pub uninterp spec fn cfg_set_of(options: Seq<CfgModel>) -> Option<Seq<CfgOptionModel>>;

/// Trusted: reads an edition of `cairo_lang_filesystem` from a JSON string with
/// `serde_json::from_value`. The compiler's `Edition` is a unit enum whose
/// variants serde knows by the names `2023_01`, `2023_10` and `2023_11`, so the
/// call succeeds on exactly these three texts.
#[verifier::external_body]
pub(crate) fn edition_from_text(text: &str) -> (parsed: Result<Edition, serde_json::Error>)
    ensures
        parsed is Ok <==> known_edition(text@) is Some,
        parsed matches Ok(edition) ==> known_edition(text@) == Some(edition),
{
    match serde_json::from_value::<CairoEdition>(serde_json::Value::String(text.to_owned())) {
        Ok(CairoEdition::V2023_01) => Ok(Edition::V2023_01),
        Ok(CairoEdition::V2023_10) => Ok(Edition::V2023_10),
        Ok(CairoEdition::V2023_11) => Ok(Edition::V2023_11),
        Err(error) => Err(error),
    }
}

/// Trusted: asks `cairo_lang_filesystem` for its default edition, which its
/// source marks as `V2023_01`.
#[verifier::external_body]
pub(crate) fn compiler_default_edition() -> (edition: Edition)
    ensures
        edition == default_edition(),
{
    match CairoEdition::default() {
        CairoEdition::V2023_01 => Edition::V2023_01,
        CairoEdition::V2023_10 => Edition::V2023_10,
        CairoEdition::V2023_11 => Edition::V2023_11,
    }
}

/// Trusted: converts options of the metadata document into the compiler's set
/// of options, through JSON, with `serde_json::to_value` and
/// `serde_json::from_value`, and hands the set's items out in the set's order.
/// The contract only names the result.
#[verifier::external_body]
pub(crate) fn convert_cfg_set(options: &Vec<Cfg>) -> (converted: Result<CfgSet, serde_json::Error>)
    ensures
        converted is Ok <==> cfg_set_of(options.deep_view()) is Some,
        converted matches Ok(set) ==> cfg_set_of(options.deep_view()) == Some(set@),
{
    let items: Vec<scarb_metadata::Cfg> = options.iter().map(|option| match option {
        Cfg::KV(key, value) => scarb_metadata::Cfg::KV(key.clone(), value.clone()),
        Cfg::Name(name) => scarb_metadata::Cfg::Name(name.clone()),
    }).collect();
    let set: cairo_lang_filesystem::cfg::CfgSet =
        serde_json::to_value(items).and_then(serde_json::from_value)?;
    Ok(CfgSet {
        options: set.into_iter().map(|item| CfgOption {
            key: item.key.to_string(),
            value: item.value.map(|value| value.to_string()),
        }).collect(),
    })
}

/// Edition of the crate of a component that belongs to `package`: the edition
/// that the package declares, where it declares a known one, and the default
/// otherwise.
pub open spec fn package_edition(package: Option<PackageModel>) -> Edition {
    match package {
        Some(PackageModel { edition: Some(text), .. }) => match known_edition(text) {
            Some(edition) => edition,
            None => default_edition(),
        },
        _ => default_edition(),
    }
}

/// The warning that goes with `package_edition`: there is one exactly where the
/// package declares an edition that is not known. A package without an edition,
/// or no package, gives none.
pub open spec fn package_edition_warning(
    package: Option<PackageModel>,
    component: Seq<char>,
) -> Option<DiagnosticModel> {
    match package {
        Some(PackageModel { edition: Some(text), .. }) => match known_edition(text) {
            Some(_) => None,
            None => Some(DiagnosticModel::EditionInvalid { component, edition: text }),
        },
        _ => None,
    }
}

/// Gets the edition of the crate `crate_name` from its package, or assumes the
/// default edition.
pub fn scarb_package_edition(package: Option<&Package>, crate_name: &str) -> (result: (
    Edition,
    Option<Diagnostic>,
))
    ensures
        result.0 == package_edition(package.deep_view()),
        result.1.deep_view() == package_edition_warning(package.deep_view(), crate_name@),
{
    match package {
        Some(package) => match &package.edition {
            Some(text) => match edition_from_text(text.as_str()) {
                Ok(edition) => (edition, None),
                Err(_) => (
                    compiler_default_edition(),
                    Some(
                        Diagnostic::EditionInvalid {
                            component: crate_name.to_owned(),
                            edition: text.clone(),
                        },
                    ),
                ),
            },
            None => (compiler_default_edition(), None),
        },
        None => (compiler_default_edition(), None),
    }
}

/// The warning that goes with a converted set of options: there is one exactly
/// where the conversion gave nothing.
pub open spec fn cfg_set_warning(
    converted: Option<Seq<CfgOptionModel>>,
    component: Seq<char>,
) -> Option<DiagnosticModel> {
    match converted {
        Some(_) => None,
        None => Some(DiagnosticModel::CfgSetUnknown { component }),
    }
}

/// Settles what a crate gets for its options once the conversion has been
/// tried: the converted set as it is, or nothing and a warning. A partial set
/// is never made up.
pub fn settle_cfg_set(converted: Option<CfgSet>, crate_name: &str) -> (result: (
    Option<CfgSet>,
    Option<Diagnostic>,
))
    ensures
        result.0.deep_view() == converted.deep_view(),
        result.1.deep_view() == cfg_set_warning(converted.deep_view(), crate_name@),
{
    match converted {
        Some(set) => (Some(set), None),
        None => (None, Some(Diagnostic::CfgSetUnknown { component: crate_name.to_owned() })),
    }
}

/// Converts the options of the metadata document that hold for the crate
/// `crate_name` into the compiler's set of options.
pub fn scarb_cfg_set_to_cairo(cfg_set: &Vec<Cfg>, crate_name: &str) -> (result: (
    Option<CfgSet>,
    Option<Diagnostic>,
))
    ensures
        result.0.deep_view() == cfg_set_of(cfg_set.deep_view()),
        result.1.deep_view() == cfg_set_warning(cfg_set_of(cfg_set.deep_view()), crate_name@),
{
    let converted = match convert_cfg_set(cfg_set) {
        Ok(set) => Some(set),
        Err(_) => None,
    };
    settle_cfg_set(converted, crate_name)
}

/// Whether the list `features` holds exactly the name `feature`.
pub fn has_feature(features: &Vec<String>, feature: &str) -> (found: bool)
    ensures
        found == features.deep_view().contains(feature@),
{
    contains_text(features, feature)
}

/// The experimental features of the crate of a component that belongs to
/// `package`: each is on exactly where the package lists its name. Without a
/// package all are off.
pub open spec fn package_experimental_features(
    package: Option<PackageModel>,
) -> ExperimentalFeaturesConfig {
    match package {
        Some(package) => ExperimentalFeaturesConfig {
            negative_impls: package.experimental_features.contains("negative_impls"@),
            coupons: package.experimental_features.contains("coupons"@),
        },
        None => ExperimentalFeaturesConfig { negative_impls: false, coupons: false },
    }
}

/// Gets the experimental features of a crate from its package.
pub fn scarb_package_experimental_features(package: Option<&Package>) -> (features:
    ExperimentalFeaturesConfig)
    ensures
        features == package_experimental_features(package.deep_view()),
{
    match package {
        Some(package) => ExperimentalFeaturesConfig {
            negative_impls: has_feature(&package.experimental_features, "negative_impls"),
            coupons: has_feature(&package.experimental_features, "coupons"),
        },
        None => ExperimentalFeaturesConfig { negative_impls: false, coupons: false },
    }
}

} // verus!
