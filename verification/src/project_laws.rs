//! What is registered for a project, setting by setting.
use vstd::prelude::*;
use vstd::utf8::decode_utf8;

use crate::config::{parsed_version, CrateConfigurationView};
use crate::database::{overridden, with_corelib, without_override, RootDatabaseView};
use crate::directory::{is_on_the_way, resolve, tree_of, DirectoryView, FileKind};
use crate::edition::Edition;
use crate::embedded::EmbeddedDir;
use crate::entries::{lemma_lookup_at, lemma_lookup_some};
use crate::laws::{lemma_configured, lemma_last_place};
use crate::path::normalised;
use crate::project::{
    dependency_names, with_single_file_project, with_virtual_project,
    with_virtual_project_and_deps, DependencyInputView,
};

verus! {

/// Nothing is set for the crate but its root, its edition and its dependencies: it has no other
/// name, no version, no options of its own, no experimental features, and no cache.
pub open spec fn is_plain(config: CrateConfigurationView) -> bool {
    &&& config.settings.name is None
    &&& config.settings.version is None
    &&& config.settings.cfg_set is None
    &&& !config.settings.experimental_features.negative_impls
    &&& !config.settings.experimental_features.associated_item_constraints
    &&& !config.settings.experimental_features.coupons
    &&& !config.settings.experimental_features.user_defined_inline_macros
    &&& !config.settings.experimental_features.repr_ptrs
    &&& config.cache_file is None
}

/// A project that is a set of files is compiled in the base edition, depends on nothing, and holds
/// the content of its files.
pub proof fn law_project_holds_its_files(
    db: RootDatabaseView,
    project_name: Seq<char>,
    files: Seq<(Seq<char>, Seq<char>)>,
    i: int,
)
    requires
        0 <= i < files.len(),
        forall|j: int|
            i < j < files.len() ==> resolve((#[trigger] files[j]).0) != resolve(files[i].0),
    ensures
        ({
            let after = with_virtual_project(db, project_name, files);
            let config = after.crate_configs[project_name];
            &&& after.crate_configs.dom() == db.crate_configs.dom().insert(project_name)
            &&& config.root is Virtual
            &&& config.root->files.dom().contains(resolve(files[i].0))
            &&& config.root->files[resolve(files[i].0)].content == files[i].1
            &&& config.settings.edition == Edition::V2023_01
            &&& config.settings.dependencies.dom() == Set::<Seq<char>>::empty()
            &&& is_plain(config)
        }),
{
    lemma_last_place(files, i);
    let after = with_virtual_project(db, project_name, files);
    assert(after.crate_configs.dom() =~= db.crate_configs.dom().insert(project_name));
}

/// A project with dependencies is compiled in the edition `2024_07`, depends on each of them by its
/// name alone and on nothing else, and holds the content of its files.
pub proof fn law_project_with_dependencies_holds_its_files(
    db: RootDatabaseView,
    project_name: Seq<char>,
    files: Seq<(Seq<char>, Seq<char>)>,
    dependencies: Seq<(Seq<char>, DependencyInputView)>,
    i: int,
    name: Seq<char>,
)
    requires
        0 <= i < files.len(),
        forall|j: int|
            i < j < files.len() ==> resolve((#[trigger] files[j]).0) != resolve(files[i].0),
    ensures
        ({
            let after = with_virtual_project_and_deps(db, project_name, files, dependencies);
            let config = after.crate_configs[project_name];
            &&& after.crate_configs.dom().contains(project_name)
            &&& config.root is Virtual
            &&& config.root->files.dom().contains(resolve(files[i].0))
            &&& config.root->files[resolve(files[i].0)].content == files[i].1
            &&& config.settings.edition == Edition::V2024_07
            &&& config.settings.dependencies.dom().contains(name) <==> exists|k: int|
                0 <= k < dependencies.len() && (#[trigger] dependencies[k]).0 == name
            &&& config.settings.dependencies.dom().contains(name)
                ==> config.settings.dependencies[name] is None
            &&& is_plain(config)
        }),
{
    lemma_last_place(files, i);
    let names = dependency_names(dependencies);
    if names.contains(name) {
        let k = choose|k: int| 0 <= k < names.len() && names[k] == name;
        assert(dependencies[k].0 == name);
    }
    if exists|k: int| 0 <= k < dependencies.len() && (#[trigger] dependencies[k]).0 == name {
        let k = choose|k: int|
            0 <= k < dependencies.len() && (#[trigger] dependencies[k]).0 == name;
        assert(names[k] == name);
    }
}

/// A dependency holds the content of its own files, and depends on the crates that it names itself,
/// by their names alone, and on nothing else. This is for dependencies that bear a name of their
/// own.
pub proof fn law_dependency_holds_its_files(
    db: RootDatabaseView,
    project_name: Seq<char>,
    files: Seq<(Seq<char>, Seq<char>)>,
    dependencies: Seq<(Seq<char>, DependencyInputView)>,
    i: int,
    k: int,
    sub: Seq<char>,
)
    requires
        0 <= i < dependencies.len(),
        dependencies[i].0 != project_name,
        forall|j: int|
            i < j < dependencies.len() ==> (#[trigger] dependencies[j]).0 != dependencies[i].0,
        0 <= k < dependencies[i].1.files.len(),
        forall|j: int|
            k < j < dependencies[i].1.files.len() ==> resolve(
                (#[trigger] dependencies[i].1.files[j]).0,
            ) != resolve(dependencies[i].1.files[k].0),
    ensures
        ({
            let after = with_virtual_project_and_deps(db, project_name, files, dependencies);
            let (name, input) = dependencies[i];
            let config = after.crate_configs[name];
            &&& after.crate_configs.dom().contains(name)
            &&& config.root is Virtual
            &&& config.root->files.dom().contains(resolve(input.files[k].0))
            &&& config.root->files[resolve(input.files[k].0)].content == input.files[k].1
            &&& config.settings.dependencies.dom().contains(sub) <==> input.dependencies.contains(
                sub,
            )
            &&& config.settings.dependencies.dom().contains(sub)
                ==> config.settings.dependencies[sub] is None
            &&& is_plain(config)
        }),
{
    lemma_configured(dependencies, i);
    lemma_last_place(dependencies[i].1.files, k);
}

/// A dependency is configured alone by its input, whatever project it is registered for and
/// whatever else that project depends on. This is for dependencies that bear a name of their own.
pub proof fn law_dependency_is_configured_by_its_input(
    db: RootDatabaseView,
    project_name: Seq<char>,
    files: Seq<(Seq<char>, Seq<char>)>,
    dependencies: Seq<(Seq<char>, DependencyInputView)>,
    i: int,
)
    requires
        0 <= i < dependencies.len(),
        dependencies[i].0 != project_name,
        forall|j: int|
            i < j < dependencies.len() ==> (#[trigger] dependencies[j]).0 != dependencies[i].0,
    ensures
        ({
            let after = with_virtual_project_and_deps(db, project_name, files, dependencies);
            &&& after.crate_configs.dom().contains(dependencies[i].0)
            &&& after.crate_configs[dependencies[i].0].root == tree_of(dependencies[i].1.files)
            &&& is_plain(after.crate_configs[dependencies[i].0])
            &&& forall|sub: Seq<char>| #[trigger]
                after.crate_configs[dependencies[i].0].settings.dependencies.dom().contains(sub)
                    <==> dependencies[i].1.dependencies.contains(sub)
        }),
{
    lemma_configured(dependencies, i);
}

/// A directory is there if it is the root, or if the path of some file leads through it and on.
pub proof fn law_directories_are_led_through(
    files: Seq<(Seq<char>, Seq<char>)>,
    dir: Seq<Seq<char>>,
)
    ensures
        tree_of(files)->dirs.contains(dir) <==> dir.len() == 0 || exists|i: int, rest: Seq<Seq<char>>|
            #![trigger files[i], dir + rest]
            0 <= i < files.len() && rest.len() > 0 && resolve(files[i].0) == dir + rest,
{
    if tree_of(files)->dirs.contains(dir) && dir.len() > 0 {
        let i = choose|i: int|
            0 <= i < files.len() && is_on_the_way(
                dir,
                resolve(#[trigger] files[i].0),
            );
        let path = resolve(files[i].0);
        let rest = path.skip(dir.len() as int);
        assert(path =~= dir + rest);
    }
    if exists|i: int, rest: Seq<Seq<char>>|
        #![trigger files[i], dir + rest]
        0 <= i < files.len() && rest.len() > 0 && resolve(files[i].0) == dir + rest {
        let (i, rest) = choose|i: int, rest: Seq<Seq<char>>|
            #![trigger files[i], dir + rest]
            0 <= i < files.len() && rest.len() > 0 && resolve(files[i].0) == dir + rest;
        assert((dir + rest).take(dir.len() as int) =~= dir);
        assert(is_on_the_way(dir, resolve(files[i].0)));
    }
}

/// A single text makes up the crate `astro`, in the directory that it is told, or in the current
/// one. The crate is compiled in the base edition and depends on nothing. Every other crate stays
/// as it was.
pub proof fn law_single_text_makes_up_a_crate(
    db: RootDatabaseView,
    parent: Option<Seq<char>>,
    input: Seq<char>,
    name: Seq<char>,
)
    ensures
        ({
            let after = with_single_file_project(db, parent, input);
            let config = after.crate_configs["astro"@];
            &&& after.crate_configs.dom() == db.crate_configs.dom().insert("astro"@)
            &&& parent matches Some(directory) ==> config.root == DirectoryView::Real(directory)
            &&& parent is None ==> config.root == DirectoryView::Real("."@)
            &&& config.settings.edition == Edition::V2023_01
            &&& config.settings.dependencies.dom() == Set::<Seq<char>>::empty()
            &&& is_plain(config)
            &&& name != "astro"@ && db.crate_configs.dom().contains(name)
                ==> after.crate_configs[name] == db.crate_configs[name]
            &&& after.auto_withdraw_gas == db.auto_withdraw_gas
            &&& after.cfg_set == db.cfg_set
            &&& after.plugin_suites == db.plugin_suites
        }),
{
    let after = with_single_file_project(db, parent, input);
    assert(after.crate_configs.dom() =~= db.crate_configs.dom().insert("astro"@));
}

/// The texts of all files but one are those that are not about it, in the order that they were in.
proof fn lemma_without_override(overrides: Seq<(Seq<char>, Seq<char>)>, path: Seq<char>)
    ensures
        without_override(overrides, path) == overrides.filter(
            |entry: (Seq<char>, Seq<char>)| entry.0 != path,
        ),
    decreases overrides.len(),
{
    reveal(Seq::filter);
    if overrides.len() > 0 {
        lemma_without_override(overrides.drop_last(), path);
    }
}

/// Overriding a file puts its text last. The texts of other files stay, in the order that they were
/// in, and an earlier text of the file is gone.
pub proof fn law_other_texts_stay(
    overrides: Seq<(Seq<char>, Seq<char>)>,
    path: Seq<char>,
    content: Seq<char>,
)
    ensures
        overridden(overrides, path, content) == overrides.filter(
            |entry: (Seq<char>, Seq<char>)| entry.0 != path,
        ).push((path, content)),
{
    lemma_without_override(overrides, path);
}

/// A single text stands for the file `lib.cairo` in its directory, whole, and the texts of other
/// files stay.
pub proof fn law_single_text_stands_for_the_main_file(
    db: RootDatabaseView,
    directory: Seq<char>,
    input: Seq<char>,
)
    requires
        directory.len() > 0,
    ensures
        with_single_file_project(db, Some(directory), input).file_overrides
            == db.file_overrides.filter(
            |entry: (Seq<char>, Seq<char>)| entry.0 != normalised(directory + "/lib.cairo"@),
        ).push((normalised(directory + "/lib.cairo"@), input)),
        with_single_file_project(db, Some(Seq::empty()), input).file_overrides
            == db.file_overrides.filter(
            |entry: (Seq<char>, Seq<char>)| entry.0 != normalised("lib.cairo"@),
        ).push((normalised("lib.cairo"@), input)),
        with_single_file_project(db, None, input).file_overrides == db.file_overrides.filter(
            |entry: (Seq<char>, Seq<char>)| entry.0 != normalised("./lib.cairo"@),
        ).push((normalised("./lib.cairo"@), input)),
{
    reveal_strlit("/");
    reveal_strlit("lib.cairo");
    reveal_strlit("/lib.cairo");
    reveal_strlit("./lib.cairo");
    reveal_strlit(".");
    assert(directory + "/lib.cairo"@ =~= directory + "/"@ + "lib.cairo"@);
    assert("./lib.cairo"@ =~= "."@ + "/"@ + "lib.cairo"@);
    law_other_texts_stay(db.file_overrides, normalised(directory + "/lib.cairo"@), input);
    law_other_texts_stay(db.file_overrides, normalised("lib.cairo"@), input);
    law_other_texts_stay(db.file_overrides, normalised("./lib.cairo"@), input);
}

/// The core library is the crate `core`, in the latest edition, with its own version and with every
/// experimental feature. Everything else stays as it was.
pub proof fn law_core_library_is_configured(
    db: RootDatabaseView,
    corelib: EmbeddedDir,
    name: Seq<char>,
)
    ensures
        ({
            let after = with_corelib(db, corelib);
            let config = after.crate_configs["core"@];
            &&& after.crate_configs.dom() == db.crate_configs.dom().insert("core"@)
            &&& config.root == corelib.as_directory()
            &&& config.cache_file is None
            &&& config.settings.name is None
            &&& config.settings.edition == Edition::V2025_12
            &&& config.settings.version == parsed_version("2.16.1"@)
            &&& config.settings.cfg_set is None
            &&& config.settings.dependencies.dom() == Set::<Seq<char>>::empty()
            &&& config.settings.experimental_features.negative_impls
            &&& config.settings.experimental_features.associated_item_constraints
            &&& config.settings.experimental_features.coupons
            &&& config.settings.experimental_features.user_defined_inline_macros
            &&& config.settings.experimental_features.repr_ptrs
            &&& name != "core"@ && db.crate_configs.dom().contains(name)
                ==> after.crate_configs[name] == db.crate_configs[name]
            &&& after.auto_withdraw_gas == db.auto_withdraw_gas
            &&& after.cfg_set == db.cfg_set
            &&& after.plugin_suites == db.plugin_suites
            &&& after.file_overrides == db.file_overrides
        }),
{
    let after = with_corelib(db, corelib);
    assert(after.crate_configs.dom() =~= db.crate_configs.dom().insert("core"@));
}

/// An embedded file stands in the core library as the text that its bytes spell, whole, under its
/// own name. This is for directories in which no name is used twice.
pub proof fn law_embedded_file_is_read_back(embedded: EmbeddedDir, i: int)
    requires
        0 <= i < embedded.files@.len(),
        forall|a: int, b: int|
            0 <= a < b < embedded.files@.len() ==> (#[trigger] embedded.files@[a]).0@ != (
            #[trigger] embedded.files@[b]).0@,
    ensures
        ({
            let path = seq![embedded.files@[i].0@];
            let file = embedded.as_directory()->files[path];
            &&& embedded.as_directory() is Virtual
            &&& embedded.as_directory()->files.dom().contains(path)
            &&& file.content == decode_utf8(embedded.files@[i].1@)
            &&& file.name == embedded.files@[i].0@
            &&& file.parent is None
            &&& file.code_mappings.len() == 0
            &&& file.kind == FileKind::Module
            &&& !file.original_item_removed
        }),
{
    lemma_lookup_at(embedded.files@, i);
}

/// What stands in an embedded directory stands in it below the directories above, and nothing else
/// does. This is for directories in which no name is used twice.
pub proof fn law_embedded_directory_is_kept(
    embedded: EmbeddedDir,
    i: int,
    path: Seq<Seq<char>>,
)
    requires
        0 <= i < embedded.dirs@.len(),
        forall|a: int, b: int|
            0 <= a < b < embedded.dirs@.len() ==> (#[trigger] embedded.dirs@[a]).0@ != (
            #[trigger] embedded.dirs@[b]).0@,
        path.len() > 0,
    ensures
        ({
            let inner = embedded.dirs@[i].1.as_directory();
            let whole = embedded.as_directory();
            let longer = seq![embedded.dirs@[i].0@] + path;
            &&& whole->files.dom().contains(longer) <==> inner->files.dom().contains(path)
            &&& inner->files.dom().contains(path) ==> whole->files[longer] == inner->files[path]
            &&& whole->dirs.contains(longer) <==> inner->dirs.contains(path)
            &&& whole->dirs.contains(seq![embedded.dirs@[i].0@])
            &&& whole->dirs.contains(Seq::empty())
            &&& whole->on_disk.dom() == Set::<Seq<Seq<char>>>::empty()
        }),
{
    lemma_lookup_at(embedded.dirs@, i);
    let longer = seq![embedded.dirs@[i].0@] + path;
    assert(longer.drop_first() =~= path);
    assert(longer.last() == path.last());
    let single = seq![embedded.dirs@[i].0@];
    assert(single.drop_first() =~= Seq::empty());
    reveal_with_fuel(EmbeddedDir::has_dir, 2);
    assert(embedded.as_directory()->on_disk.dom() =~= Set::<Seq<Seq<char>>>::empty());
}

/// Nothing is reached in an embedded directory but by names that are used in it.
pub proof fn law_nothing_else_is_embedded(embedded: EmbeddedDir, path: Seq<Seq<char>>)
    requires
        path.len() > 0,
    ensures
        embedded.as_directory()->files.dom().contains(path) && path.len() == 1 ==> exists|i: int|
            0 <= i < embedded.files@.len() && (#[trigger] embedded.files@[i]).0@ == path[0],
        embedded.as_directory()->files.dom().contains(path) && path.len() > 1 ==> exists|i: int|
            0 <= i < embedded.dirs@.len() && (#[trigger] embedded.dirs@[i]).0@ == path[0],
        embedded.as_directory()->dirs.contains(path) ==> exists|i: int|
            0 <= i < embedded.dirs@.len() && (#[trigger] embedded.dirs@[i]).0@ == path[0],
        !embedded.as_directory()->files.dom().contains(Seq::empty()),
{
    if embedded.as_directory()->files.dom().contains(path) && path.len() == 1 {
        let i = lemma_lookup_some(embedded.files@, path[0]);
        assert(embedded.files@[i].0@ == path[0]);
    }
    if embedded.as_directory()->files.dom().contains(path) && path.len() > 1
        || embedded.as_directory()->dirs.contains(path) {
        let i = lemma_lookup_some(embedded.dirs@, path[0]);
        assert(embedded.dirs@[i].0@ == path[0]);
    }
}

} // verus!
