//! The description of a compilation database: how it is built, and what is registered in it.
use vstd::prelude::*;

use cairo_lang_filesystem::cfg::CfgSet;

use crate::config::{
    all_features, optional_options, parse_version, parsed_version, CrateConfiguration,
    CrateConfigurationView, CrateSettings, CrateSettingsView, ExperimentalFeaturesConfig,
};
use crate::directory::DirectoryView;
use crate::edition::Edition;
use crate::embedded::{build_corelib_virtual_directory, EmbeddedDir};
use crate::entries::{
    distinct, lemma_lookup_at, lemma_lookup_some, lookup, position, set_entry,
};
use crate::path::{normalise, normalised};
use crate::text::optional_text;

verus! {

/// A set of compiler plugins on top of the default ones.
#[derive(Clone, Copy, Debug, PartialEq, Eq, Structural)]
pub enum PluginSuite {
    /// The plugins that tests need.
    Test,
    /// The plugins that Starknet contracts need.
    Starknet,
}

/// A compilation database, described by what it is built with and what is registered in it.
#[derive(Debug)]
pub struct RootDatabase {
    /// Whether gas withdrawals are added where code needs them.
    pub auto_withdraw_gas: bool,
    /// The `#[cfg(...)]` options of the whole database.
    pub cfg_set: Option<CfgSet>,
    /// Plugin suites, in the order in which they are added to the default ones.
    pub plugin_suites: Vec<PluginSuite>,
    /// The configurations of crates, by the names of the crates.
    pub crate_configs: Vec<(String, CrateConfiguration)>,
    /// The texts that stand for the content of files on disk, by the normalised paths of the files,
    /// in the order in which they are to be put in place.
    pub file_overrides: Vec<(String, String)>,
}

/// What a [`RootDatabase`] describes.
#[verifier::ext_equal]
pub struct RootDatabaseView {
    pub auto_withdraw_gas: bool,
    pub cfg_set: Option<Set<(Seq<char>, Option<Seq<char>>)>>,
    pub plugin_suites: Seq<PluginSuite>,
    pub crate_configs: Map<Seq<char>, CrateConfigurationView>,
    pub file_overrides: Seq<(Seq<char>, Seq<char>)>,
}

/// Crate names and what is configured under them.
pub open spec fn config_map(entries: Seq<(String, CrateConfiguration)>) -> Map<
    Seq<char>,
    CrateConfigurationView,
> {
    Map::new(
        |name: Seq<char>| lookup(entries, name) is Some,
        |name: Seq<char>| lookup(entries, name)->0@,
    )
}

/// Paths of files, each with the text that stands for the content of the file.
pub open spec fn override_texts(entries: Seq<(String, String)>) -> Seq<(Seq<char>, Seq<char>)> {
    entries.map_values(|entry: (String, String)| (entry.0@, entry.1@))
}

/// The overrides of all files but one.
pub open spec fn without_override(
    overrides: Seq<(Seq<char>, Seq<char>)>,
    path: Seq<char>,
) -> Seq<(Seq<char>, Seq<char>)>
    decreases overrides.len(),
{
    if overrides.len() == 0 {
        Seq::empty()
    } else {
        let rest = without_override(overrides.drop_last(), path);
        if overrides.last().0 == path {
            rest
        } else {
            rest.push(overrides.last())
        }
    }
}

/// The overrides once a file is overridden: its text comes last, and an earlier one is gone.
pub open spec fn overridden(
    overrides: Seq<(Seq<char>, Seq<char>)>,
    path: Seq<char>,
    content: Seq<char>,
) -> Seq<(Seq<char>, Seq<char>)> {
    without_override(overrides, path).push((path, content))
}

/// Leaving out a file that is not overridden changes nothing.
pub proof fn lemma_not_overridden(overrides: Seq<(Seq<char>, Seq<char>)>, path: Seq<char>)
    requires
        forall|i: int| 0 <= i < overrides.len() ==> (#[trigger] overrides[i]).0 != path,
    ensures
        without_override(overrides, path) == overrides,
    decreases overrides.len(),
{
    if overrides.len() > 0 {
        let before = overrides.drop_last();
        assert forall|i: int| 0 <= i < before.len() implies (#[trigger] before[i]).0 != path by {
            assert(before[i] == overrides[i]);
        }
        lemma_not_overridden(before, path);
        assert(overrides[overrides.len() - 1].0 != path);
        assert(before.push(overrides.last()) =~= overrides);
    }
}

/// Leaving out a file that is overridden once takes its override out.
proof fn lemma_overridden_at(overrides: Seq<(Seq<char>, Seq<char>)>, i: int)
    requires
        0 <= i < overrides.len(),
        forall|j: int|
            0 <= j < overrides.len() && j != i ==> (#[trigger] overrides[j]).0 != overrides[i].0,
    ensures
        without_override(overrides, overrides[i].0) == overrides.remove(i),
    decreases overrides.len(),
{
    let before = overrides.drop_last();
    let path = overrides[i].0;
    let last = overrides.len() - 1;
    if i == last {
        assert forall|j: int| 0 <= j < before.len() implies (#[trigger] before[j]).0 != path by {
            assert(before[j] == overrides[j]);
        }
        lemma_not_overridden(before, path);
        assert(overrides.remove(i) =~= before);
    } else {
        assert(before[i] == overrides[i]);
        assert forall|j: int| 0 <= j < before.len() && j != i implies (#[trigger] before[j]).0
            != before[i].0 by {
            assert(before[j] == overrides[j]);
        }
        lemma_overridden_at(before, i);
        assert(overrides[last].0 != path);
        assert(before.remove(i).push(overrides.last()) =~= overrides.remove(i));
    }
}

/// No override of a file is left where the file is left out.
pub proof fn lemma_left_out(overrides: Seq<(Seq<char>, Seq<char>)>, path: Seq<char>)
    ensures
        forall|i: int|
            0 <= i < without_override(overrides, path).len() ==> (
            #[trigger] without_override(overrides, path)[i]).0 != path,
    decreases overrides.len(),
{
    if overrides.len() > 0 {
        let rest = without_override(overrides.drop_last(), path);
        lemma_left_out(overrides.drop_last(), path);
        assert forall|i: int| 0 <= i < without_override(overrides, path).len() implies (
        #[trigger] without_override(overrides, path)[i]).0 != path by {
            if i < rest.len() {
                assert(rest[i].0 != path);
            }
        }
    }
}

impl View for RootDatabase {
    type V = RootDatabaseView;

    open spec fn view(&self) -> RootDatabaseView {
        RootDatabaseView {
            auto_withdraw_gas: self.auto_withdraw_gas,
            cfg_set: optional_options(self.cfg_set),
            plugin_suites: self.plugin_suites@,
            crate_configs: config_map(self.crate_configs@),
            file_overrides: override_texts(self.file_overrides@),
        }
    }
}

/// A database with the default plugins, in which nothing is registered.
pub open spec fn empty_database() -> RootDatabaseView {
    RootDatabaseView {
        auto_withdraw_gas: true,
        cfg_set: None,
        plugin_suites: Seq::empty(),
        crate_configs: Map::empty(),
        file_overrides: Seq::empty(),
    }
}

impl RootDatabase {
    /// Each crate is configured once, each file has one override, and every configuration is
    /// well formed.
    pub open spec fn well_formed(self) -> bool {
        &&& distinct(self.crate_configs@)
        &&& distinct(self.file_overrides@)
        &&& forall|i: int|
            0 <= i < self.crate_configs@.len() ==> (#[trigger] self.crate_configs@[i]).1.well_formed()
    }

    /// A database with the default plugins, in which nothing is registered.
    pub fn new() -> (db: RootDatabase)
        ensures
            db.well_formed(),
            db@ == empty_database(),
    {
        let db = RootDatabase {
            auto_withdraw_gas: true,
            cfg_set: None,
            plugin_suites: Vec::new(),
            crate_configs: Vec::new(),
            file_overrides: Vec::new(),
        };
        assert(db@.crate_configs =~= Map::<Seq<char>, CrateConfigurationView>::empty());
        assert(db@.file_overrides =~= Seq::<(Seq<char>, Seq<char>)>::empty());
        db
    }

    /// Adds no gas withdrawals.
    pub fn skip_auto_withdraw_gas(&mut self)
        requires
            old(self).well_formed(),
        ensures
            final(self).well_formed(),
            final(self)@ == (RootDatabaseView { auto_withdraw_gas: false, ..old(self)@ }),
    {
        self.auto_withdraw_gas = false;
    }

    /// Sets the `#[cfg(...)]` options.
    pub fn with_cfg(&mut self, cfg_set: CfgSet)
        requires
            old(self).well_formed(),
        ensures
            final(self).well_formed(),
            final(self)@ == (RootDatabaseView {
                cfg_set: optional_options(Some(cfg_set)),
                ..old(self)@
            }),
    {
        self.cfg_set = Some(cfg_set);
    }

    /// Adds a plugin suite to the default ones.
    pub fn with_default_plugin_suite(&mut self, suite: PluginSuite)
        requires
            old(self).well_formed(),
        ensures
            final(self).well_formed(),
            final(self)@ == (RootDatabaseView {
                plugin_suites: old(self)@.plugin_suites.push(suite),
                ..old(self)@
            }),
    {
        self.plugin_suites.push(suite);
    }

    /// Configures a crate, in place of what was configured for it before.
    pub fn set_crate_config(&mut self, name: String, config: CrateConfiguration)
        requires
            old(self).well_formed(),
            config.well_formed(),
        ensures
            final(self).well_formed(),
            final(self)@ == (RootDatabaseView {
                crate_configs: old(self)@.crate_configs.insert(name@, config@),
                ..old(self)@
            }),
    {
        let ghost before = self.crate_configs@;
        let ghost key = name@;
        set_entry(&mut self.crate_configs, name, config);
        proof {
            let after = self.crate_configs@;
            assert forall|i: int| 0 <= i < after.len() implies (#[trigger] after[i]).1.well_formed() by {
                lemma_lookup_at(after, i);
                if after[i].0@ != key {
                    let k = lemma_lookup_some(before, after[i].0@);
                    assert(before[k].1.well_formed());
                }
            }
            assert(config_map(after) =~= config_map(before).insert(key, config@));
        }
    }

    /// Overrides the content of a file, in place of an earlier override of the same file. The
    /// override is the last one to be put in place.
    pub fn override_file_content(&mut self, path: &str, content: String)
        requires
            old(self).well_formed(),
        ensures
            final(self).well_formed(),
            final(self)@ == (RootDatabaseView {
                file_overrides: overridden(
                    old(self)@.file_overrides,
                    normalised(path@),
                    content@,
                ),
                ..old(self)@
            }),
    {
        let ghost before = self.file_overrides@;
        let ghost text = content@;
        let key = normalise(path);
        match position(&self.file_overrides, key.as_str()) {
            Some(i) => {
                self.file_overrides.remove(i);
                proof {
                    let all = override_texts(before);
                    assert forall|j: int| 0 <= j < all.len() && j != i implies (#[trigger] all[j]).0
                        != all[i as int].0 by {
                        if j < i {
                            assert(before[j].0@ != before[i as int].0@);
                        } else {
                            assert(before[i as int].0@ != before[j].0@);
                        }
                    }
                    lemma_overridden_at(all, i as int);
                    assert(override_texts(self.file_overrides@) =~= all.remove(i as int));
                    let rest = self.file_overrides@;
                    assert forall|a: int, b: int| 0 <= a < b < rest.len() implies #[trigger] rest[a].0@
                        != #[trigger] rest[b].0@ by {
                        let x = if a < i { a } else { a + 1 };
                        let y = if b < i { b } else { b + 1 };
                        assert(before[x].0@ != before[y].0@);
                    }
                }
            },
            None => {
                proof {
                    let all = override_texts(before);
                    assert forall|j: int| 0 <= j < all.len() implies (#[trigger] all[j]).0
                        != key@ by {
                        lemma_lookup_at(before, j);
                    }
                    lemma_not_overridden(all, key@);
                }
            },
        }
        let ghost rest = self.file_overrides@;
        self.file_overrides.push((key, content));
        proof {
            let after = self.file_overrides@;
            assert(override_texts(after) =~= override_texts(rest).push((normalised(path@), text)));
            lemma_left_out(override_texts(before), normalised(path@));
            assert forall|a: int, b: int| 0 <= a < b < after.len() implies #[trigger] after[a].0@
                != #[trigger] after[b].0@ by {
                if b < rest.len() {
                    assert(rest[a].0@ != rest[b].0@);
                } else {
                    assert(override_texts(rest)[a].0 == after[a].0@);
                }
            }
        }
    }
}

/// A crate, by its name and by what tells it apart from other crates of that name.
#[derive(Debug)]
pub struct CrateInput {
    pub name: String,
    pub discriminator: Option<String>,
}

/// What a [`CrateInput`] holds.
#[verifier::ext_equal]
pub struct CrateInputView {
    pub name: Seq<char>,
    pub discriminator: Option<Seq<char>>,
}

impl View for CrateInput {
    type V = CrateInputView;

    open spec fn view(&self) -> CrateInputView {
        CrateInputView { name: self.name@, discriminator: optional_text(self.discriminator) }
    }
}

/// The crate that its name alone stands for.
pub open spec fn plain_crate(name: Seq<char>) -> CrateInputView {
    CrateInputView { name, discriminator: None }
}

/// What each crate of a list is.
pub open spec fn crate_views(crates: Seq<CrateInput>) -> Seq<CrateInputView> {
    crates.map_values(|input: CrateInput| input@)
}

impl CrateInput {
    /// The crate that its name alone stands for.
    pub fn plain(name: &str) -> (input: CrateInput)
        ensures
            input@ == plain_crate(name@),
    {
        CrateInput { name: name.to_owned(), discriminator: None }
    }
}

/// A copy of a list of crates.
pub fn copy_crates(crates: &Vec<CrateInput>) -> (copy: Vec<CrateInput>)
    ensures
        crate_views(copy@) == crate_views(crates@),
{
    let mut copy: Vec<CrateInput> = Vec::new();
    let mut i: usize = 0;
    while i < crates.len()
        invariant
            i <= crates.len(),
            copy.len() == i,
            forall|k: int| 0 <= k < i ==> (#[trigger] copy@[k])@ == crates@[k]@,
        decreases crates.len() - i,
    {
        let discriminator = match &crates[i].discriminator {
            Some(text) => Some(text.clone()),
            None => None,
        };
        copy.push(CrateInput { name: crates[i].name.clone(), discriminator });
        i = i + 1;
    }
    assert(crate_views(copy@) =~= crate_views(crates@));
    copy
}

/// `cairo_lang_filesystem::db::CORELIB_VERSION`: the version of the core library, which is that of
/// the crate that defines it.
#[verifier::external_body]
fn corelib_version() -> (version: String)
    ensures
        version@ == "2.16.1"@,
{
    cairo_lang_filesystem::db::CORELIB_VERSION.to_owned()
}

/// The configuration of the core library: the latest edition, its own version, and every
/// experimental feature.
pub open spec fn corelib_configuration(root: DirectoryView) -> CrateConfigurationView {
    CrateConfigurationView {
        root,
        settings: CrateSettingsView {
            name: None,
            edition: Edition::V2025_12,
            version: parsed_version("2.16.1"@),
            cfg_set: None,
            dependencies: Map::empty(),
            experimental_features: all_features(true),
        },
        cache_file: None,
    }
}

/// A database with the core library registered.
pub open spec fn with_corelib(db: RootDatabaseView, corelib: EmbeddedDir) -> RootDatabaseView {
    RootDatabaseView {
        crate_configs: db.crate_configs.insert(
            "core"@,
            corelib_configuration(corelib.as_directory()),
        ),
        ..db
    }
}

/// Registers the core library from embedded files, so that none is looked for on disk.
pub fn init_corelib(db: &mut RootDatabase, corelib: &EmbeddedDir)
    requires
        old(db).well_formed(),
        corelib.is_text(),
    ensures
        final(db).well_formed(),
        final(db)@ == with_corelib(old(db)@, *corelib),
{
    let root = build_corelib_virtual_directory(corelib);
    let config = CrateConfiguration {
        root,
        settings: CrateSettings {
            name: None,
            edition: Edition::V2025_12,
            version: parse_version(corelib_version().as_str()),
            cfg_set: None,
            dependencies: Vec::new(),
            experimental_features: ExperimentalFeaturesConfig {
                negative_impls: true,
                associated_item_constraints: true,
                coupons: true,
                user_defined_inline_macros: true,
                repr_ptrs: true,
            },
        },
        cache_file: None,
    };
    assert(config@.settings.dependencies =~= Map::<Seq<char>, Option<Seq<char>>>::empty());
    db.set_crate_config("core".to_owned(), config);
}

} // verus!
