//! The configuration of a crate.
use vstd::prelude::*;

use cairo_lang_filesystem::cfg::{Cfg, CfgSet};

use crate::directory::{Directory, DirectoryView};
use crate::edition::Edition;
use crate::entries::{distinct, lookup};
use crate::text::optional_text;

verus! {

/// `cairo_lang_filesystem::cfg::CfgSet`: a set of `#[cfg(...)]` options.
#[verifier::external_type_specification]
#[verifier::external_body]
pub struct ExCfgSet(CfgSet);

/// The options in a set: the key of each, and its value if it has one.
pub uninterp spec fn cfg_options(set: CfgSet) -> Set<(Seq<char>, Option<Seq<char>>)>;

/// An option without a value.
pub open spec fn cfg_name(name: Seq<char>) -> (Seq<char>, Option<Seq<char>>) {
    (name, None)
}

/// An option with a value.
pub open spec fn cfg_kv(key: Seq<char>, value: Seq<char>) -> (Seq<char>, Option<Seq<char>>) {
    (key, Some(value))
}

/// The keys and values of a list of options.
pub open spec fn option_texts(options: Seq<(String, Option<String>)>) -> Seq<
    (Seq<char>, Option<Seq<char>>),
> {
    options.map_values(|option: (String, Option<String>)| (option.0@, optional_text(option.1)))
}

/// The options of a list.
pub open spec fn listed_options(options: Seq<(String, Option<String>)>) -> Set<
    (Seq<char>, Option<Seq<char>>),
> {
    option_texts(options).to_set()
}

/// `CfgSet::from_iter`: the set of the options that are listed, whatever their order and however
/// often each of them is listed.
#[verifier::external_body]
pub(crate) fn cfg_set_from_iter(options: Vec<(String, Option<String>)>) -> (set: CfgSet)
    ensures
        cfg_options(set) == listed_options(options@),
{
    CfgSet::from_iter(options.into_iter().map(|(key, value)| Cfg { key, value }))
}

/// `CfgSet::insert`: the option is in the set from now on, and nothing else changes.
#[verifier::external_body]
pub(crate) fn cfg_set_insert(set: &mut CfgSet, key: String, value: Option<String>)
    ensures
        cfg_options(*final(set)) == cfg_options(*old(set)).insert((key@, optional_text(value))),
{
    set.insert(Cfg { key, value })
}

/// A semantic version.
#[derive(Debug)]
pub struct Version {
    pub major: u64,
    pub minor: u64,
    pub patch: u64,
    pub pre: String,
    pub build: String,
}

impl Version {
    /// The numbers of a version, its pre-release part and its build part.
    pub open spec fn parts(self) -> (u64, u64, u64, Seq<char>, Seq<char>) {
        (self.major, self.minor, self.patch, self.pre@, self.build@)
    }
}

/// What `semver::Version::parse` makes of a text: the numbers of the version, its pre-release part
/// and its build part, or nothing where the text is no semantic version.
pub uninterp spec fn parsed_version(text: Seq<char>) -> Option<
    (u64, u64, u64, Seq<char>, Seq<char>),
>;

/// The parts of an optional version.
pub open spec fn version_parts(version: Option<Version>) -> Option<
    (u64, u64, u64, Seq<char>, Seq<char>),
> {
    match version {
        Some(version) => Some(version.parts()),
        None => None,
    }
}

/// `semver::Version::parse`: the version that a text spells, or nothing where it spells none.
#[verifier::external_body]
pub(crate) fn parse_version(text: &str) -> (version: Option<Version>)
    ensures
        version_parts(version) == parsed_version(text@),
{
    let version = semver::Version::parse(text).ok()?;
    Some(
        Version {
            major: version.major,
            minor: version.minor,
            patch: version.patch,
            pre: version.pre.as_str().to_owned(),
            build: version.build.as_str().to_owned(),
        },
    )
}

/// How a crate depends on another one.
#[derive(Debug)]
pub struct DependencySettings {
    /// Tells copies of one dependency apart.
    pub discriminator: Option<String>,
}

/// Language features that are off unless a crate asks for them.
#[derive(Clone, Copy, Debug, PartialEq, Eq, Structural)]
pub struct ExperimentalFeaturesConfig {
    pub negative_impls: bool,
    pub associated_item_constraints: bool,
    pub coupons: bool,
    pub user_defined_inline_macros: bool,
    pub repr_ptrs: bool,
}

/// All experimental features, on or off alike.
pub open spec fn all_features(on: bool) -> ExperimentalFeaturesConfig {
    ExperimentalFeaturesConfig {
        negative_impls: on,
        associated_item_constraints: on,
        coupons: on,
        user_defined_inline_macros: on,
        repr_ptrs: on,
    }
}

impl Default for ExperimentalFeaturesConfig {
    /// No experimental feature is on.
    fn default() -> (features: Self)
        ensures
            features == all_features(false),
    {
        ExperimentalFeaturesConfig {
            negative_impls: false,
            associated_item_constraints: false,
            coupons: false,
            user_defined_inline_macros: false,
            repr_ptrs: false,
        }
    }
}

/// The settings of a crate.
#[derive(Debug)]
pub struct CrateSettings {
    /// The name that code refers to the crate by, where it is not the crate's own.
    pub name: Option<String>,
    pub edition: Edition,
    pub version: Option<Version>,
    pub cfg_set: Option<CfgSet>,
    /// The crates that this one depends on, by their names.
    pub dependencies: Vec<(String, DependencySettings)>,
    pub experimental_features: ExperimentalFeaturesConfig,
}

/// What [`CrateSettings`] hold.
#[verifier::ext_equal]
pub struct CrateSettingsView {
    pub name: Option<Seq<char>>,
    pub edition: Edition,
    pub version: Option<(u64, u64, u64, Seq<char>, Seq<char>)>,
    pub cfg_set: Option<Set<(Seq<char>, Option<Seq<char>>)>>,
    pub dependencies: Map<Seq<char>, Option<Seq<char>>>,
    pub experimental_features: ExperimentalFeaturesConfig,
}

/// The options of an optional set.
pub open spec fn optional_options(set: Option<CfgSet>) -> Option<
    Set<(Seq<char>, Option<Seq<char>>)>,
> {
    match set {
        Some(set) => Some(cfg_options(set)),
        None => None,
    }
}

/// The names of dependencies, each with its discriminator.
pub open spec fn dependency_map(entries: Seq<(String, DependencySettings)>) -> Map<
    Seq<char>,
    Option<Seq<char>>,
> {
    Map::new(
        |name: Seq<char>| lookup(entries, name) is Some,
        |name: Seq<char>| optional_text(lookup(entries, name)->0.discriminator),
    )
}

impl View for CrateSettings {
    type V = CrateSettingsView;

    open spec fn view(&self) -> CrateSettingsView {
        CrateSettingsView {
            name: optional_text(self.name),
            edition: self.edition,
            version: version_parts(self.version),
            cfg_set: optional_options(self.cfg_set),
            dependencies: dependency_map(self.dependencies@),
            experimental_features: self.experimental_features,
        }
    }
}

impl CrateSettings {
    /// No dependency is named twice.
    pub open spec fn well_formed(self) -> bool {
        distinct(self.dependencies@)
    }
}

/// The configuration of a crate.
#[derive(Debug)]
pub struct CrateConfiguration {
    /// The root directory of the crate.
    pub root: Directory,
    pub settings: CrateSettings,
    /// The path of a file with what was compiled before.
    pub cache_file: Option<String>,
}

/// What a [`CrateConfiguration`] holds.
#[verifier::ext_equal]
pub struct CrateConfigurationView {
    pub root: DirectoryView,
    pub settings: CrateSettingsView,
    pub cache_file: Option<Seq<char>>,
}

impl View for CrateConfiguration {
    type V = CrateConfigurationView;

    open spec fn view(&self) -> CrateConfigurationView {
        CrateConfigurationView {
            root: self.root@,
            settings: self.settings@,
            cache_file: optional_text(self.cache_file),
        }
    }
}

/// The configuration of a crate with the given root, edition and dependencies, and with nothing
/// else set.
pub open spec fn plain_configuration(
    root: DirectoryView,
    edition: Edition,
    dependencies: Map<Seq<char>, Option<Seq<char>>>,
) -> CrateConfigurationView {
    CrateConfigurationView {
        root,
        settings: CrateSettingsView {
            name: None,
            edition,
            version: None,
            cfg_set: None,
            dependencies,
            experimental_features: all_features(false),
        },
        cache_file: None,
    }
}

/// The configuration of a crate with the given root and with nothing else set.
pub open spec fn default_configuration(root: DirectoryView) -> CrateConfigurationView {
    plain_configuration(root, Edition::V2023_01, Map::empty())
}

impl CrateConfiguration {
    /// Names are not used twice, neither for files nor for dependencies.
    pub open spec fn well_formed(self) -> bool {
        self.root.well_formed() && self.settings.well_formed()
    }

    /// The configuration of a crate with the given root, edition and dependencies.
    pub fn plain(
        root: Directory,
        edition: Edition,
        dependencies: Vec<(String, DependencySettings)>,
    ) -> (config: CrateConfiguration)
        requires
            root.well_formed(),
            distinct(dependencies@),
        ensures
            config.well_formed(),
            config@ == plain_configuration(root@, edition, dependency_map(dependencies@)),
    {
        CrateConfiguration {
            root,
            settings: CrateSettings {
                name: None,
                edition,
                version: None,
                cfg_set: None,
                dependencies,
                experimental_features: ExperimentalFeaturesConfig::default(),
            },
            cache_file: None,
        }
    }

    /// The configuration of a crate that has a root directory and nothing else.
    pub fn default_for_root(root: Directory) -> (config: CrateConfiguration)
        requires
            root.well_formed(),
        ensures
            config.well_formed(),
            config@ == default_configuration(root@),
    {
        let config = CrateConfiguration::plain(root, Edition::default(), Vec::new());
        assert(config@.settings.dependencies =~= Map::<Seq<char>, Option<Seq<char>>>::empty());
        config
    }
}

} // verus!
