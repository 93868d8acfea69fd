use scarb_project_model::diagnostics::{Diagnostic, Severity};
use scarb_project_model::metadata::{Cfg, Package};
use scarb_project_model::project::{
    text_eq, CfgOption, CfgSet, Edition, ExperimentalFeaturesConfig,
};
use scarb_project_model::settings::{
    has_feature, scarb_cfg_set_to_cairo, scarb_package_edition,
    scarb_package_experimental_features, settle_cfg_set,
};

fn package(edition: Option<&str>, features: &[&str]) -> Package {
    Package {
        id: "p 1.0.0".to_string(),
        edition: edition.map(|e| e.to_string()),
        experimental_features: features.iter().map(|f| f.to_string()).collect(),
        manifest_path: "/w/p/Scarb.toml".to_string(),
    }
}

fn option(key: &str, value: Option<&str>) -> CfgOption {
    CfgOption { key: key.to_string(), value: value.map(|v| v.to_string()) }
}

#[test]
fn known_editions_are_read() {
    for (text, edition) in [
        ("2023_01", Edition::V2023_01),
        ("2023_10", Edition::V2023_10),
        ("2023_11", Edition::V2023_11),
    ] {
        assert_eq!(scarb_package_edition(Some(&package(Some(text), &[])), "p"), (edition, None));
    }
}

#[test]
fn absent_edition_is_the_default_without_a_warning() {
    assert_eq!(scarb_package_edition(Some(&package(None, &[])), "p"), (Edition::V2023_01, None));
    assert_eq!(scarb_package_edition(None, "p"), (Edition::V2023_01, None));
}

#[test]
fn unknown_edition_is_the_default_with_a_warning() {
    for text in ["", "2023", "V2023_10", "2023-10", "2023_10 ", "2024_07"] {
        assert_eq!(
            scarb_package_edition(Some(&package(Some(text), &[])), "pkg"),
            (
                Edition::V2023_01,
                Some(Diagnostic::EditionInvalid {
                    component: "pkg".to_string(),
                    edition: text.to_string()
                })
            )
        );
    }
}

#[test]
fn features_are_on_where_their_exact_name_is_listed() {
    let off = ExperimentalFeaturesConfig { negative_impls: false, coupons: false };
    assert_eq!(scarb_package_experimental_features(None), off);
    assert_eq!(scarb_package_experimental_features(Some(&package(None, &[]))), off);
    assert_eq!(
        scarb_package_experimental_features(Some(&package(
            None,
            &["Coupons", "negative-impls", "coupon", " coupons"]
        ))),
        off
    );
    assert_eq!(
        scarb_package_experimental_features(Some(&package(None, &["other", "coupons"]))),
        ExperimentalFeaturesConfig { negative_impls: false, coupons: true }
    );
    assert_eq!(
        scarb_package_experimental_features(Some(&package(None, &["negative_impls"]))),
        ExperimentalFeaturesConfig { negative_impls: true, coupons: false }
    );
}

#[test]
fn has_feature_finds_exact_names() {
    let features = vec!["a".to_string(), "bc".to_string()];
    assert!(has_feature(&features, "a"));
    assert!(has_feature(&features, "bc"));
    assert!(!has_feature(&features, "b"));
    assert!(!has_feature(&vec![], "a"));
}

#[test]
fn text_eq_compares_characters() {
    assert!(text_eq("lib", "lib"));
    assert!(!text_eq("lib", "Lib"));
    assert!(!text_eq("lib", "libs"));
    assert!(text_eq("", ""));
}

#[test]
fn options_come_out_in_the_order_of_the_set() {
    let flags = vec![
        Cfg::Name("name2".to_string()),
        Cfg::KV("k".to_string(), "b".to_string()),
        Cfg::Name("name".to_string()),
        Cfg::KV("k".to_string(), "a".to_string()),
        Cfg::Name("name".to_string()),
    ];
    let (set, warning) = scarb_cfg_set_to_cairo(&flags, "pkg");
    assert_eq!(warning, None);
    assert_eq!(
        set,
        Some(CfgSet {
            options: vec![
                option("k", Some("a")),
                option("k", Some("b")),
                option("name", None),
                option("name2", None),
            ]
        })
    );
}

#[test]
fn no_options_give_an_empty_set() {
    assert_eq!(scarb_cfg_set_to_cairo(&vec![], "pkg"), (Some(CfgSet { options: vec![] }), None));
}

#[test]
fn unknown_options_are_not_an_empty_set() {
    let (set, warning) = settle_cfg_set(None, "pkg");
    assert_eq!(set, None);
    assert_ne!(set, Some(CfgSet { options: vec![] }));
    let warning = warning.expect("a warning");
    assert_eq!(warning, Diagnostic::CfgSetUnknown { component: "pkg".to_string() });
    assert_eq!(warning.severity(), Severity::Warn);
    assert_eq!(
        warning.message(),
        "scarb metadata cfg did not convert identically to cairo one for crate: pkg"
    );
    let known = CfgSet { options: vec![option("test", None)] };
    assert_eq!(settle_cfg_set(Some(known.clone()), "pkg"), (Some(known), None));
}
