use scarb_project_model::diagnostics::{Diagnostic, Severity};
use scarb_project_model::fetch::scarb_metadata;
use scarb_project_model::metadata::{Cfg, CompilationUnit, Component, Metadata, Package};
use scarb_project_model::project::{
    CfgOption, CfgSet, Crate, CrateSettings, Edition, ExperimentalFeaturesConfig,
};
use scarb_project_model::resolve::{
    any_core, component_crate, project_crates, source_paths, Resolution,
};
use scarb_project_model::source_path::{
    FsSnapshot, PathStatus, SourcePathDefect, SourcePathError,
};

fn component(name: &str, source_path: &str) -> Component {
    Component {
        name: name.to_string(),
        package: format!("{name} 1.0.0 (registry)"),
        source_path: source_path.to_string(),
        cfg: None,
    }
}

fn package_of(name: &str, edition: Option<&str>, features: &[&str]) -> Package {
    Package {
        id: format!("{name} 1.0.0 (registry)"),
        edition: edition.map(|e| e.to_string()),
        experimental_features: features.iter().map(|f| f.to_string()).collect(),
        manifest_path: format!("/abs/{name}/Scarb.toml"),
    }
}

fn unit(id: &str, kind: &str, components: Vec<Component>) -> CompilationUnit {
    CompilationUnit { id: id.to_string(), target_kind: kind.to_string(), cfg: vec![], components }
}

fn snapshot(entries: &[(&str, PathStatus)]) -> FsSnapshot {
    let mut fs = FsSnapshot::new();
    for (path, status) in entries {
        fs.record(path.to_string(), *status);
    }
    fs
}

fn names(resolution: &Resolution) -> Vec<String> {
    resolution.crates.iter().map(|c: &Crate| c.name.clone()).collect()
}

#[test]
fn two_components_give_two_crates() {
    let metadata = Metadata {
        workspace_members: vec!["mypkg 1.0.0 (registry)".to_string()],
        packages: vec![package_of("core", None, &[]), package_of("mypkg", Some("2023_11"), &[])],
        compilation_units: vec![unit(
            "mypkg-lib",
            "lib",
            vec![
                component("core", "/abs/core/src/lib.cairo"),
                component("mypkg", "/abs/pkg/src/mypkg_main.cairo"),
            ],
        )],
    };
    let fs = snapshot(&[
        ("/abs/core/src/lib.cairo", PathStatus::File),
        ("/abs/pkg/src/mypkg_main.cairo", PathStatus::File),
    ]);
    let resolution = project_crates(Some(&metadata), &fs);
    assert_eq!(resolution.crates.len(), 2);
    let core = &resolution.crates[0];
    assert_eq!(core.name, "core");
    assert_eq!(core.root, "/abs/core/src");
    assert_eq!(core.custom_main_file_stem, None);
    assert_eq!(core.settings.edition, Edition::V2023_01);
    let mypkg = &resolution.crates[1];
    assert_eq!(mypkg.name, "mypkg");
    assert_eq!(mypkg.root, "/abs/pkg/src");
    assert_eq!(mypkg.custom_main_file_stem, Some("mypkg_main".to_string()));
    assert_eq!(mypkg.settings.edition, Edition::V2023_11);
    assert!(resolution.diagnostics.is_empty());
}

#[test]
fn directory_component_is_dropped() {
    let metadata = Metadata {
        workspace_members: vec![],
        packages: vec![package_of("core", None, &[]), package_of("pkg", None, &[])],
        compilation_units: vec![unit(
            "pkg-lib",
            "lib",
            vec![component("pkg", "/abs/pkg"), component("core", "/abs/core/src/lib.cairo")],
        )],
    };
    let fs = snapshot(&[
        ("/abs/pkg", PathStatus::Directory),
        ("/abs/core/src/lib.cairo", PathStatus::File),
    ]);
    let resolution = project_crates(Some(&metadata), &fs);
    assert_eq!(names(&resolution), vec!["core".to_string()]);
    assert_eq!(resolution.diagnostics.len(), 1);
    let warning = &resolution.diagnostics[0];
    assert_eq!(warning.severity(), Severity::Warn);
    assert_eq!(warning.component(), Some(&"pkg".to_string()));
    assert_eq!(
        warning.message(),
        "source path of component `pkg` must not be a directory: /abs/pkg"
    );
    match warning {
        Diagnostic::ComponentSkipped { error } => {
            assert_eq!(error.defect, SourcePathDefect::IsDirectory)
        }
        other => panic!("unexpected diagnostic: {other:?}"),
    }
}

#[test]
fn cfg_options_are_converted() {
    let mut lib = component("core", "/abs/core/src/lib.cairo");
    lib.cfg = Some(vec![
        Cfg::Name("test".to_string()),
        Cfg::KV("target".to_string(), "starknet".to_string()),
        Cfg::Name("test".to_string()),
    ]);
    let metadata = Metadata {
        workspace_members: vec![],
        packages: vec![package_of("core", None, &[])],
        compilation_units: vec![unit("core-lib", "lib", vec![lib])],
    };
    let fs = snapshot(&[("/abs/core/src/lib.cairo", PathStatus::File)]);
    let resolution = project_crates(Some(&metadata), &fs);
    let set = resolution.crates[0].settings.cfg_set.clone().expect("options are known");
    let options: Vec<(String, Option<String>)> =
        set.options.iter().map(|o| (o.key.clone(), o.value.clone())).collect();
    assert_eq!(
        options,
        vec![
            ("target".to_string(), Some("starknet".to_string())),
            ("test".to_string(), None),
        ]
    );
}

fn valid_workspace() -> (Metadata, FsSnapshot) {
    let metadata = Metadata {
        workspace_members: vec!["app 1.0.0 (registry)".to_string()],
        packages: vec![
            package_of("core", None, &[]),
            package_of("app", Some("2023_10"), &["coupons"]),
            package_of("dep", Some("2023_01"), &["negative_impls", "coupons"]),
        ],
        compilation_units: vec![
            unit(
                "app-lib",
                "lib",
                vec![
                    component("core", "/w/core/src/lib.cairo"),
                    component("dep", "/w/dep/src/lib.cairo"),
                    component("app", "/w/app/src/lib.cairo"),
                ],
            ),
            unit("macros", "cairo-plugin", vec![component("macros", "/w/macros/src/lib.cairo")]),
            unit(
                "app-test",
                "test",
                vec![
                    component("core", "/w/core/src/lib.cairo"),
                    component("app", "/w/app/tests/it.cairo"),
                ],
            ),
        ],
    };
    let fs = snapshot(&[
        ("/w/core/src/lib.cairo", PathStatus::File),
        ("/w/dep/src/lib.cairo", PathStatus::File),
        ("/w/app/src/lib.cairo", PathStatus::File),
        ("/w/app/tests/it.cairo", PathStatus::File),
        ("/w/macros/src/lib.cairo", PathStatus::File),
    ]);
    (metadata, fs)
}

#[test]
fn every_valid_component_gives_a_crate_in_document_order() {
    let (metadata, fs) = valid_workspace();
    let resolution = project_crates(Some(&metadata), &fs);
    assert_eq!(names(&resolution), vec!["core", "dep", "app", "core", "app"]);
    let roots: Vec<&str> = resolution.crates.iter().map(|c| c.root.as_str()).collect();
    assert_eq!(
        roots,
        vec!["/w/core/src", "/w/dep/src", "/w/app/src", "/w/core/src", "/w/app/tests"]
    );
    assert_eq!(resolution.crates[4].custom_main_file_stem, Some("it".to_string()));
    assert_eq!(
        resolution.diagnostics,
        vec![Diagnostic::PluginUnitSkipped { unit: "macros".to_string() }]
    );
    assert_eq!(resolution.diagnostics[0].severity(), Severity::Debug);
    assert_eq!(
        resolution.diagnostics[0].message(),
        "skipping cairo plugin compilation unit: macros"
    );
}

#[test]
fn crates_of_one_name_are_not_merged() {
    let (metadata, fs) = valid_workspace();
    let resolution = project_crates(Some(&metadata), &fs);
    let apps: Vec<&Crate> = resolution.crates.iter().filter(|c| c.name == "app").collect();
    assert_eq!(apps.len(), 2);
    assert_eq!(apps[0].root, "/w/app/src");
    assert_eq!(apps[1].root, "/w/app/tests");
}

#[test]
fn source_paths_lists_what_the_derivation_looks_at() {
    let (metadata, _) = valid_workspace();
    assert_eq!(
        source_paths(&metadata),
        vec![
            "/w/core/src/lib.cairo",
            "/w/dep/src/lib.cairo",
            "/w/app/src/lib.cairo",
            "/w/core/src/lib.cairo",
            "/w/app/tests/it.cairo",
        ]
    );
}

#[test]
fn settings_come_from_the_package() {
    let (metadata, fs) = valid_workspace();
    let resolution = project_crates(Some(&metadata), &fs);
    let core = &resolution.crates[0].settings;
    assert_eq!(core.edition, Edition::V2023_01);
    assert_eq!(
        core.experimental_features,
        ExperimentalFeaturesConfig { negative_impls: false, coupons: false }
    );
    let dep = &resolution.crates[1].settings;
    assert_eq!(dep.edition, Edition::V2023_01);
    assert_eq!(
        dep.experimental_features,
        ExperimentalFeaturesConfig { negative_impls: true, coupons: true }
    );
    let app = &resolution.crates[2].settings;
    assert_eq!(app.edition, Edition::V2023_10);
    assert_eq!(
        app.experimental_features,
        ExperimentalFeaturesConfig { negative_impls: false, coupons: true }
    );
    assert_eq!(app.cfg_set, Some(CfgSet { options: vec![] }));
}

#[test]
fn derivation_is_repeatable() {
    let (metadata, fs) = valid_workspace();
    let first = project_crates(Some(&metadata), &fs);
    let second = project_crates(Some(&metadata.clone()), &fs.clone());
    assert_eq!(first, second);
}

#[test]
fn no_metadata_gives_nothing() {
    let (_, fs) = valid_workspace();
    let resolution = project_crates(None, &fs);
    assert_eq!(resolution, Resolution { crates: vec![], diagnostics: vec![] });
}

#[test]
fn failed_fetch_gives_no_crates() {
    let fetch = scarb_metadata("/w/Scarb.toml", Err("scarb exited with 1".to_string()));
    let resolution = project_crates(fetch.metadata.as_ref(), &FsSnapshot::new());
    assert!(resolution.crates.is_empty());
    assert!(resolution.diagnostics.is_empty());
}

#[test]
fn missing_core_is_reported_last() {
    let metadata = Metadata {
        workspace_members: vec![],
        packages: vec![package_of("a", None, &[]), package_of("b", None, &[])],
        compilation_units: vec![unit(
            "a-lib",
            "lib",
            vec![component("a", "/w/a/src/lib.cairo"), component("b", "/w/b/src/lib.cairo")],
        )],
    };
    let fs = snapshot(&[
        ("/w/a/src/lib.cairo", PathStatus::File),
        ("/w/b/src/lib.cairo", PathStatus::File),
    ]);
    let resolution = project_crates(Some(&metadata), &fs);
    assert_eq!(names(&resolution), vec!["a", "b"]);
    assert!(!any_core(&resolution.crates));
    assert_eq!(resolution.diagnostics, vec![Diagnostic::CoreMissing]);
    assert_eq!(resolution.diagnostics[0].severity(), Severity::Warn);
    assert_eq!(
        resolution.diagnostics[0].message(),
        "the `core` crate is missing in scarb metadata, will try to use unmanaged `core`"
    );
}

#[test]
fn empty_document_misses_core() {
    let metadata = Metadata { workspace_members: vec![], packages: vec![], compilation_units: vec![] };
    let resolution = project_crates(Some(&metadata), &FsSnapshot::new());
    assert!(resolution.crates.is_empty());
    assert_eq!(resolution.diagnostics, vec![Diagnostic::CoreMissing]);
}

#[test]
fn unknown_edition_falls_back_with_a_warning() {
    let metadata = Metadata {
        workspace_members: vec![],
        packages: vec![package_of("core", Some("2077_01"), &[])],
        compilation_units: vec![unit(
            "core-lib",
            "lib",
            vec![component("core", "/w/core/src/lib.cairo")],
        )],
    };
    let fs = snapshot(&[("/w/core/src/lib.cairo", PathStatus::File)]);
    let resolution = project_crates(Some(&metadata), &fs);
    assert_eq!(resolution.crates.len(), 1);
    assert_eq!(resolution.crates[0].settings.edition, Edition::V2023_01);
    assert_eq!(
        resolution.diagnostics,
        vec![Diagnostic::EditionInvalid {
            component: "core".to_string(),
            edition: "2077_01".to_string()
        }]
    );
    assert_eq!(resolution.diagnostics[0].severity(), Severity::Warn);
    assert_eq!(
        resolution.diagnostics[0].message(),
        "failed to parse edition `2077_01` of package: core"
    );
}

#[test]
fn missing_package_gives_defaults_and_a_warning() {
    let metadata = Metadata {
        workspace_members: vec![],
        packages: vec![],
        compilation_units: vec![unit(
            "core-lib",
            "lib",
            vec![component("core", "/w/core/src/lib.cairo")],
        )],
    };
    let fs = snapshot(&[("/w/core/src/lib.cairo", PathStatus::File)]);
    let resolution = project_crates(Some(&metadata), &fs);
    assert_eq!(resolution.crates.len(), 1);
    let settings = &resolution.crates[0].settings;
    assert_eq!(settings.edition, Edition::V2023_01);
    assert_eq!(
        settings.experimental_features,
        ExperimentalFeaturesConfig { negative_impls: false, coupons: false }
    );
    assert_eq!(
        resolution.diagnostics,
        vec![Diagnostic::PackageMissing { component: "core".to_string() }]
    );
    assert_eq!(
        resolution.diagnostics[0].message(),
        "package for component is missing in scarb metadata: core"
    );
}

#[test]
fn missing_package_and_bad_path_give_two_warnings() {
    let metadata = Metadata {
        workspace_members: vec![],
        packages: vec![package_of("core", None, &[])],
        compilation_units: vec![unit(
            "x-lib",
            "lib",
            vec![
                Component {
                    name: "x".to_string(),
                    package: "nowhere".to_string(),
                    source_path: "/w/x/src/lib.cairo".to_string(),
                    cfg: None,
                },
                component("core", "/w/core/src/lib.cairo"),
            ],
        )],
    };
    let fs = snapshot(&[("/w/core/src/lib.cairo", PathStatus::File)]);
    let resolution = project_crates(Some(&metadata), &fs);
    assert_eq!(names(&resolution), vec!["core"]);
    assert_eq!(
        resolution.diagnostics,
        vec![
            Diagnostic::PackageMissing { component: "x".to_string() },
            Diagnostic::ComponentSkipped {
                error: SourcePathError {
                    defect: SourcePathDefect::Inaccessible,
                    component: "x".to_string(),
                    source_path: "/w/x/src/lib.cairo".to_string(),
                }
            },
        ]
    );
}

#[test]
fn unit_options_hold_where_the_component_has_none() {
    let mut with_own = component("core", "/w/core/src/lib.cairo");
    with_own.cfg = Some(vec![Cfg::Name("own".to_string())]);
    let without = component("app", "/w/app/src/lib.cairo");
    let mut lib = unit("app-lib", "lib", vec![with_own, without]);
    lib.cfg = vec![Cfg::KV("target".to_string(), "test".to_string())];
    let metadata = Metadata {
        workspace_members: vec![],
        packages: vec![package_of("core", None, &[]), package_of("app", None, &[])],
        compilation_units: vec![lib],
    };
    let fs = snapshot(&[
        ("/w/core/src/lib.cairo", PathStatus::File),
        ("/w/app/src/lib.cairo", PathStatus::File),
    ]);
    let resolution = project_crates(Some(&metadata), &fs);
    assert_eq!(
        resolution.crates[0].settings.cfg_set,
        Some(CfgSet { options: vec![CfgOption { key: "own".to_string(), value: None }] })
    );
    assert_eq!(
        resolution.crates[1].settings.cfg_set,
        Some(CfgSet {
            options: vec![CfgOption { key: "target".to_string(), value: Some("test".to_string()) }]
        })
    );
}

#[test]
fn component_crate_keeps_a_stem_that_is_not_lib() {
    let settings = CrateSettings {
        edition: Edition::V2023_11,
        cfg_set: None,
        experimental_features: ExperimentalFeaturesConfig { negative_impls: false, coupons: false },
    };
    let usual = component_crate("a", "/w/a".to_string(), "lib".to_string(), settings.clone());
    assert_eq!(
        usual,
        Crate {
            name: "a".to_string(),
            root: "/w/a".to_string(),
            custom_main_file_stem: None,
            settings: settings.clone()
        }
    );
    assert!(!usual.is_core());
    let custom = component_crate("core", "/w/c".to_string(), "Lib".to_string(), settings);
    assert_eq!(custom.custom_main_file_stem, Some("Lib".to_string()));
    assert!(custom.is_core());
}
