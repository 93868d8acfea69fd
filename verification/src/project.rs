//! The crates that derivation produces, and their settings.

use vstd::prelude::*;

verus! {

/// Edition of the language that a crate is written in.
#[allow(non_camel_case_types)]
#[derive(Clone, Copy, Debug, PartialEq, Eq, Structural)]
pub enum Edition {
    /// The base edition.
    V2023_01,
    V2023_10,
    V2023_11,
}

/// Experimental language features, each switched on or off for one crate.
#[derive(Clone, Copy, Debug, PartialEq, Eq, Structural)]
pub struct ExperimentalFeaturesConfig {
    pub negative_impls: bool,
    pub coupons: bool,
}

/// One option that conditional compilation can ask for: a bare name, or a key
/// with a value.
#[derive(Clone, Debug, PartialEq, Eq)]
pub struct CfgOption {
    pub key: String,
    pub value: Option<String>,
}

/// Mathematical model of a [`CfgOption`].
pub struct CfgOptionModel {
    pub key: Seq<char>,
    pub value: Option<Seq<char>>,
}

impl DeepView for CfgOption {
    type V = CfgOptionModel;

    open spec fn deep_view(&self) -> CfgOptionModel {
        CfgOptionModel { key: self.key@, value: self.value.deep_view() }
    }
}

impl View for CfgOption {
    type V = CfgOptionModel;

    open spec fn view(&self) -> CfgOptionModel {
        self.deep_view()
    }
}

/// The options that conditional compilation in one crate goes by, in the order
/// in which the compiler's own set keeps them.
#[derive(Clone, Debug, PartialEq, Eq)]
pub struct CfgSet {
    pub options: Vec<CfgOption>,
}

impl DeepView for CfgSet {
    type V = Seq<CfgOptionModel>;

    open spec fn deep_view(&self) -> Seq<CfgOptionModel> {
        self.options.deep_view()
    }
}

impl View for CfgSet {
    type V = Seq<CfgOptionModel>;

    open spec fn view(&self) -> Seq<CfgOptionModel> {
        self.deep_view()
    }
}

/// Settings of one crate.
#[derive(Clone, Debug, PartialEq, Eq)]
pub struct CrateSettings {
    pub edition: Edition,
    /// `None` says that the options are unknown, so that nothing is to be
    /// compiled conditionally; this is not the same as an empty set.
    pub cfg_set: Option<CfgSet>,
    pub experimental_features: ExperimentalFeaturesConfig,
}

/// Mathematical model of [`CrateSettings`].
pub struct CrateSettingsModel {
    pub edition: Edition,
    pub cfg_set: Option<Seq<CfgOptionModel>>,
    pub experimental_features: ExperimentalFeaturesConfig,
}

impl DeepView for CrateSettings {
    type V = CrateSettingsModel;

    open spec fn deep_view(&self) -> CrateSettingsModel {
        CrateSettingsModel {
            edition: self.edition,
            cfg_set: self.cfg_set.deep_view(),
            experimental_features: self.experimental_features,
        }
    }
}

impl View for CrateSettings {
    type V = CrateSettingsModel;

    open spec fn view(&self) -> CrateSettingsModel {
        self.deep_view()
    }
}

/// One crate that the compiler database has to know about.
#[derive(Clone, Debug, PartialEq, Eq)]
pub struct Crate {
    /// Name of the crate.
    pub name: String,
    /// Directory that holds the crate's entry source file.
    pub root: String,
    /// Stem of the entry source file, where it is not the usual `lib`.
    pub custom_main_file_stem: Option<String>,
    pub settings: CrateSettings,
}

/// Mathematical model of a [`Crate`].
pub struct CrateModel {
    pub name: Seq<char>,
    pub root: Seq<char>,
    pub custom_main_file_stem: Option<Seq<char>>,
    pub settings: CrateSettingsModel,
}

impl DeepView for Crate {
    type V = CrateModel;

    open spec fn deep_view(&self) -> CrateModel {
        CrateModel {
            name: self.name@,
            root: self.root@,
            custom_main_file_stem: self.custom_main_file_stem.deep_view(),
            settings: self.settings.deep_view(),
        }
    }
}

impl View for Crate {
    type V = CrateModel;

    open spec fn view(&self) -> CrateModel {
        self.deep_view()
    }
}

/// Name of the crate that holds the standard library.
pub open spec fn core_crate_name() -> Seq<char> {
    "core"@
}

/// Stem of the file that a crate starts from unless it says otherwise.
pub open spec fn default_main_file_stem() -> Seq<char> {
    "lib"@
}

impl CrateModel {
    /// Whether this is the standard library's crate.
    pub open spec fn is_core(self) -> bool {
        self.name == core_crate_name()
    }
}

/// Whether `text` and `literal` hold the same characters.
pub fn text_eq(text: &str, literal: &str) -> (same: bool)
    ensures
        same == (text@ == literal@),
{
    let a = text.to_owned();
    let b = literal.to_owned();
    a == b
}

/// Whether the list `texts` holds exactly the text `text`.
pub fn contains_text(texts: &Vec<String>, text: &str) -> (found: bool)
    ensures
        found == texts.deep_view().contains(text@),
{
    let mut i: usize = 0;
    while i < texts.len()
        invariant
            0 <= i <= texts@.len(),
            forall|k: int| 0 <= k < i ==> texts.deep_view()[k] != text@,
        decreases texts@.len() - i,
    {
        if text_eq(texts[i].as_str(), text) {
            assert(texts.deep_view()[i as int] == text@);
            return true;
        }
        i += 1;
    }
    false
}

impl Crate {
    /// Whether this is the standard library's crate.
    pub fn is_core(&self) -> (core: bool)
        ensures
            core == self@.is_core(),
    {
        text_eq(self.name.as_str(), "core")
    }
}

} // verus!
