//! Projects: which crates a project is made of, and how each of them is configured.
use vstd::prelude::*;

use crate::config::{
    default_configuration, dependency_map, plain_configuration, CrateConfiguration,
    CrateConfigurationView, DependencySettings,
};
use crate::database::{
    crate_views, overridden, plain_crate, CrateInput, RootDatabase, RootDatabaseView,
};
use crate::directory::{build_virtual_directory, file_texts, tree_of, Directory, DirectoryView};
use crate::edition::{edition_named, parse_edition, Edition};
use crate::entries::{distinct, lookup, set_entry};
use crate::error::Error;
use crate::path::{file_in, file_in_directory, normalised};
use crate::text::{names_of, optional_text, starts_with, texts};

verus! {

/// The sources of a crate that a project depends on.
#[derive(Debug)]
pub struct DependencyInput {
    /// Paths of files, relative to the sources of the crate, and their content.
    pub files: Vec<(String, String)>,
    /// The edition of the crate, such as `2024_07`. The default edition, if there is none.
    pub edition: Option<String>,
    /// The names of the crates that this one depends on.
    pub dependencies: Vec<String>,
}

/// What a [`DependencyInput`] holds.
#[verifier::ext_equal]
pub struct DependencyInputView {
    pub files: Seq<(Seq<char>, Seq<char>)>,
    pub edition: Option<Seq<char>>,
    pub dependencies: Seq<Seq<char>>,
}

impl View for DependencyInput {
    type V = DependencyInputView;

    open spec fn view(&self) -> DependencyInputView {
        DependencyInputView {
            files: file_texts(self.files@),
            edition: optional_text(self.edition),
            dependencies: texts(self.dependencies@),
        }
    }
}

/// Names of dependencies and what each of them holds.
pub open spec fn dependency_views(dependencies: Seq<(String, DependencyInput)>) -> Seq<
    (Seq<char>, DependencyInputView),
> {
    dependencies.map_values(|entry: (String, DependencyInput)| (entry.0@, entry.1@))
}

/// The names of a list of dependencies.
pub open spec fn dependency_names(dependencies: Seq<(Seq<char>, DependencyInputView)>) -> Seq<
    Seq<char>,
> {
    dependencies.map_values(|entry: (Seq<char>, DependencyInputView)| entry.0)
}

/// Dependencies on crates that their names alone stand for.
pub open spec fn plain_dependencies(names: Seq<Seq<char>>) -> Map<Seq<char>, Option<Seq<char>>> {
    Map::new(|name: Seq<char>| names.contains(name), |name: Seq<char>| None)
}

/// The edition of a dependency: the one that it names, or the default one.
pub open spec fn dependency_edition(edition: Option<Seq<char>>) -> Edition {
    match edition {
        Some(name) => edition_named(name),
        None => Edition::V2023_01,
    }
}

/// The configuration of a dependency: its own files, edition and dependencies.
pub open spec fn dependency_configuration(input: DependencyInputView) -> CrateConfigurationView {
    plain_configuration(
        tree_of(input.files),
        dependency_edition(input.edition),
        plain_dependencies(input.dependencies),
    )
}

/// The configurations of all dependencies. Of two that bear one name the later one counts.
pub open spec fn dependency_configurations(
    dependencies: Seq<(Seq<char>, DependencyInputView)>,
) -> Map<Seq<char>, CrateConfigurationView>
    decreases dependencies.len(),
{
    if dependencies.len() == 0 {
        Map::empty()
    } else {
        dependency_configurations(dependencies.drop_last()).insert(
            dependencies.last().0,
            dependency_configuration(dependencies.last().1),
        )
    }
}

/// The database with a project registered that is a set of files.
pub open spec fn with_virtual_project(
    db: RootDatabaseView,
    project_name: Seq<char>,
    files: Seq<(Seq<char>, Seq<char>)>,
) -> RootDatabaseView {
    RootDatabaseView {
        crate_configs: db.crate_configs.insert(project_name, default_configuration(tree_of(files))),
        ..db
    }
}

/// The database with a project registered that is a set of files, and with all its dependencies.
/// The project depends on every one of them, and each of them on those that it names itself.
pub open spec fn with_virtual_project_and_deps(
    db: RootDatabaseView,
    project_name: Seq<char>,
    files: Seq<(Seq<char>, Seq<char>)>,
    dependencies: Seq<(Seq<char>, DependencyInputView)>,
) -> RootDatabaseView {
    RootDatabaseView {
        crate_configs: db.crate_configs.union_prefer_right(
            dependency_configurations(dependencies),
        ).insert(
            project_name,
            plain_configuration(
                tree_of(files),
                Edition::V2024_07,
                plain_dependencies(dependency_names(dependencies)),
            ),
        ),
        ..db
    }
}

/// The name of the crate that a single file makes up.
pub open spec fn single_file_crate() -> Seq<char> {
    "astro"@
}

/// The database with a project registered that is a single text. It stands for the main file of a
/// crate whose directory is `parent`, or the current one.
pub open spec fn with_single_file_project(
    db: RootDatabaseView,
    parent: Option<Seq<char>>,
    input: Seq<char>,
) -> RootDatabaseView {
    let directory = match parent {
        Some(path) => path,
        None => "."@,
    };
    RootDatabaseView {
        crate_configs: db.crate_configs.insert(
            single_file_crate(),
            default_configuration(DirectoryView::Real(directory)),
        ),
        file_overrides: overridden(
            db.file_overrides,
            normalised(file_in(directory, "lib.cairo"@)),
            input,
        ),
        ..db
    }
}

/// The path is read alike on every platform: it holds no separator that only some platforms have,
/// and no prefix.
pub open spec fn is_portable(path: Seq<char>) -> bool {
    &&& !path.contains('\\')
    &&& !path.contains(':')
    &&& !starts_with(path, "//"@)
}

/// A name in a path that is a component of it, wherever it stands.
pub open spec fn is_component(name: Seq<char>) -> bool {
    &&& name.len() > 0
    &&& name != "."@
    &&& !name.contains('/')
}

/// The path of a directory that ends in a component, or the current directory.
pub open spec fn is_directory_path(path: Seq<char>) -> bool {
    path == "."@ || is_component(names_of(path).last())
}

/// The path without the `/` that it ends in, but for the root.
pub open spec fn without_trailing_separators(path: Seq<char>) -> Seq<char>
    decreases path.len(),
{
    if path.len() > 1 && path.last() == '/' {
        without_trailing_separators(path.drop_last())
    } else {
        path
    }
}

/// What is known of the parent of a path that does not end in `/`: the empty path and the root have
/// none, the parent of a name is the empty path, and the parent of something in a directory, or in
/// the root, is that directory.
pub open spec fn may_be_parent_of(path: Seq<char>, parent: Option<Seq<char>>) -> bool {
    &&& path.len() == 0 ==> parent is None
    &&& path == "/"@ ==> parent is None
    &&& path.len() > 0 && !path.contains('/') ==> parent == Some(Seq::<char>::empty())
    &&& forall|name: Seq<char>|
        #![trigger "/"@ + name]
        is_component(name) && path == "/"@ + name ==> parent == Some("/"@)
    &&& forall|directory: Seq<char>, name: Seq<char>|
        #![trigger directory + "/"@ + name]
        is_directory_path(directory) && is_component(name) && path == directory + "/"@ + name
            ==> parent == Some(directory)
}

/// What is known of the parent of a path on every platform. A `/` at the end changes nothing.
pub open spec fn may_be_parent(path: Seq<char>, parent: Option<Seq<char>>) -> bool {
    is_portable(path) ==> may_be_parent_of(without_trailing_separators(path), parent)
}

/// The directory of a file that is named without one is written as an empty path.
pub proof fn lemma_astro_parent(parent: Option<Seq<char>>)
    requires
        may_be_parent("astro.cairo"@, parent) || may_be_parent("astro"@, parent),
    ensures
        parent == Some(Seq::<char>::empty()),
{
    reveal_strlit("astro.cairo");
    reveal_strlit("astro");
    reveal_strlit("//");
    assert(!starts_with("astro.cairo"@, "//"@)) by {
        assert("astro.cairo"@.subrange(0, 2)[0] == 'a');
    }
    assert(!starts_with("astro"@, "//"@)) by {
        assert("astro"@.subrange(0, 2)[0] == 'a');
    }
}

/// The parent of the path is known on every platform.
pub open spec fn has_known_parent(path: Seq<char>) -> bool {
    let shorter = without_trailing_separators(path);
    &&& is_portable(path)
    &&& {
        ||| shorter == "/"@
        ||| !shorter.contains('/')
        ||| exists|name: Seq<char>|
            #![trigger "/"@ + name]
            is_component(name) && shorter == "/"@ + name
        ||| exists|directory: Seq<char>, name: Seq<char>|
            #![trigger directory + "/"@ + name]
            is_directory_path(directory) && is_component(name) && shorter == directory + "/"@ + name
    }
}

/// `std::path::Path::parent`: the path without its final component, if there is one. What a
/// separator or a prefix is depends on the platform, so nothing is stated of paths that hold `\` or
/// `:` or start with `//`. Nor is it stated how a parent is written where the last name before the
/// final component, or the last name of all, is empty or `.`.
#[verifier::external_body]
fn path_parent(path: &str) -> (parent: Option<String>)
    ensures
        may_be_parent(path@, optional_text(parent)),
{
    std::path::Path::new(path).parent().map(|p| p.to_str().unwrap().to_owned())
}

/// Registers a project that is a single text, in the directory `parent` or the current one.
pub fn setup_single_file_project_in(
    db: &mut RootDatabase,
    parent: Option<String>,
    input: &str,
) -> (main_crate: CrateInput)
    requires
        old(db).well_formed(),
    ensures
        final(db).well_formed(),
        final(db)@ == with_single_file_project(old(db)@, optional_text(parent), input@),
        main_crate@ == plain_crate(single_file_crate()),
{
    let directory = match parent {
        Some(path) => path,
        None => ".".to_owned(),
    };
    let root = Directory::Real(directory.clone());
    db.set_crate_config("astro".to_owned(), CrateConfiguration::default_for_root(root));
    let main_file = file_in_directory(directory.as_str(), "lib.cairo");
    db.override_file_content(main_file.as_str(), input.to_owned());
    CrateInput::plain("astro")
}

/// Registers a project that is a single text, in the directory `parent` or the current one, and
/// lists its crate.
pub fn setup_project_in(db: &mut RootDatabase, parent: Option<String>, input: &str) -> (main_crates:
    Vec<CrateInput>)
    requires
        old(db).well_formed(),
    ensures
        final(db).well_formed(),
        final(db)@ == with_single_file_project(old(db)@, optional_text(parent), input@),
        crate_views(main_crates@) == seq![plain_crate(single_file_crate())],
{
    let mut main_crates: Vec<CrateInput> = Vec::new();
    main_crates.push(setup_single_file_project_in(db, parent, input));
    assert(crate_views(main_crates@) =~= seq![plain_crate(single_file_crate())]);
    main_crates
}

/// Registers a project that is a single text, beside the file that `path` names.
pub fn setup_single_file_project_with_input_string(
    db: &mut RootDatabase,
    path: &str,
    input: &str,
) -> (result: Result<CrateInput, Error>)
    requires
        old(db).well_formed(),
    ensures
        final(db).well_formed(),
        exists|parent: Option<Seq<char>>| #[trigger]
            may_be_parent(path@, parent) && final(db)@ == with_single_file_project(
                old(db)@,
                parent,
                input@,
            ),
        result matches Ok(main_crate) && main_crate@ == plain_crate(single_file_crate()),
{
    let parent = path_parent(path);
    assert(may_be_parent(path@, optional_text(parent)));
    Ok(setup_single_file_project_in(db, parent, input))
}

/// Registers a project that is a single text, beside the file that `path` names.
pub fn setup_project_with_input_string(
    db: &mut RootDatabase,
    path: &str,
    input: &str,
) -> (result: Result<Vec<CrateInput>, Error>)
    requires
        old(db).well_formed(),
    ensures
        final(db).well_formed(),
        exists|parent: Option<Seq<char>>| #[trigger]
            may_be_parent(path@, parent) && final(db)@ == with_single_file_project(
                old(db)@,
                parent,
                input@,
            ),
        result matches Ok(main_crates) && crate_views(main_crates@) == seq![
            plain_crate(single_file_crate()),
        ],
{
    let parent = path_parent(path);
    assert(may_be_parent(path@, optional_text(parent)));
    Ok(setup_project_in(db, parent, input))
}

/// Registers a project that is a set of files. Paths are relative to the directory `src/`; where
/// a path starts with `src/`, it is the same without it.
pub fn setup_virtual_project(
    db: &mut RootDatabase,
    project_name: &str,
    files: &Vec<(String, String)>,
) -> (main_crates: Vec<CrateInput>)
    requires
        old(db).well_formed(),
    ensures
        final(db).well_formed(),
        final(db)@ == with_virtual_project(old(db)@, project_name@, file_texts(files@)),
        crate_views(main_crates@) == seq![plain_crate(project_name@)],
{
    let root_dir = build_virtual_directory(files);
    db.set_crate_config(project_name.to_owned(), CrateConfiguration::default_for_root(root_dir));
    let mut main_crates: Vec<CrateInput> = Vec::new();
    main_crates.push(CrateInput::plain(project_name));
    assert(crate_views(main_crates@) =~= seq![plain_crate(project_name@)]);
    main_crates
}

/// The dependencies of a crate on others that their names alone stand for.
fn dependencies_on(names: &Vec<String>) -> (dependencies: Vec<(String, DependencySettings)>)
    ensures
        distinct(dependencies@),
        dependency_map(dependencies@) == plain_dependencies(texts(names@)),
{
    let mut dependencies: Vec<(String, DependencySettings)> = Vec::new();
    let ghost all = texts(names@);
    let mut i: usize = 0;
    while i < names.len()
        invariant
            all == texts(names@),
            i <= names.len(),
            distinct(dependencies@),
            forall|n: Seq<char>|
                (#[trigger] lookup(dependencies@, n) is Some <==> all.take(i as int).contains(n))
                    && (lookup(dependencies@, n) is Some ==> lookup(
                    dependencies@,
                    n,
                )->0.discriminator is None),
        decreases names.len() - i,
    {
        set_entry(&mut dependencies, names[i].clone(), DependencySettings { discriminator: None });
        proof {
            assert(all.take(i + 1) =~= all.take(i as int).push(all[i as int]));
            assert forall|n: Seq<char>| #[trigger] all.take(i + 1).contains(n) <==> all.take(
                i as int,
            ).contains(n) || n == all[i as int] by {
                lemma_push_contains(all.take(i as int), all[i as int], n);
            }
        }
        i = i + 1;
    }
    assert(all.take(i as int) =~= all);
    assert(dependency_map(dependencies@) =~= plain_dependencies(all));
    dependencies
}

/// What a sequence holds once an item is added to it.
proof fn lemma_push_contains(s: Seq<Seq<char>>, x: Seq<char>, y: Seq<char>)
    ensures
        s.push(x).contains(y) <==> s.contains(y) || y == x,
{
    if s.contains(y) {
        let i = choose|i: int| 0 <= i < s.len() && s[i] == y;
        assert(s.push(x)[i] == y);
    }
    if y == x {
        assert(s.push(x)[s.len() as int] == y);
    }
    if s.push(x).contains(y) && y != x {
        let i = choose|i: int| 0 <= i < s.push(x).len() && s.push(x)[i] == y;
        assert(s[i] == y);
    }
}

/// The configuration of a dependency.
fn configure_dependency(input: &DependencyInput) -> (config: CrateConfiguration)
    ensures
        config.well_formed(),
        config@ == dependency_configuration(input@),
{
    let root_dir = build_virtual_directory(&input.files);
    let edition = match &input.edition {
        Some(name) => parse_edition(name.as_str()),
        None => Edition::default(),
    };
    CrateConfiguration::plain(root_dir, edition, dependencies_on(&input.dependencies))
}

/// Registers a project that is a set of files, and all its dependencies.
pub fn setup_virtual_project_with_deps(
    db: &mut RootDatabase,
    project_name: &str,
    files: &Vec<(String, String)>,
    dependencies: &Vec<(String, DependencyInput)>,
) -> (main_crates: Vec<CrateInput>)
    requires
        old(db).well_formed(),
    ensures
        final(db).well_formed(),
        final(db)@ == with_virtual_project_and_deps(
            old(db)@,
            project_name@,
            file_texts(files@),
            dependency_views(dependencies@),
        ),
        crate_views(main_crates@) == seq![plain_crate(project_name@)],
{
    let ghost all = dependency_views(dependencies@);
    let ghost before = db@;
    let mut names: Vec<String> = Vec::new();
    let mut i: usize = 0;
    assert(db@.crate_configs =~= before.crate_configs.union_prefer_right(
        dependency_configurations(all.take(0)),
    ));
    while i < dependencies.len()
        invariant
            all == dependency_views(dependencies@),
            i <= dependencies.len(),
            db.well_formed(),
            db@ == (RootDatabaseView {
                crate_configs: before.crate_configs.union_prefer_right(
                    dependency_configurations(all.take(i as int)),
                ),
                ..before
            }),
            texts(names@) == dependency_names(all.take(i as int)),
        decreases dependencies.len() - i,
    {
        let config = configure_dependency(&dependencies[i].1);
        let ghost seen = dependency_configurations(all.take(i as int));
        db.set_crate_config(dependencies[i].0.clone(), config);
        let ghost names_before = names@;
        names.push(dependencies[i].0.clone());
        proof {
            assert(all.take(i + 1).drop_last() =~= all.take(i as int));
            assert(all.take(i + 1).last() == all[i as int]);
            assert(before.crate_configs.union_prefer_right(seen).insert(
                all[i as int].0,
                config@,
            ) =~= before.crate_configs.union_prefer_right(seen.insert(all[i as int].0, config@)));
            assert(texts(names@) =~= texts(names_before).push(all[i as int].0));
            assert(dependency_names(all.take(i + 1)) =~= dependency_names(all.take(i as int)).push(
                all[i as int].0,
            ));
        }
        i = i + 1;
    }
    assert(all.take(i as int) =~= all);
    let root_dir = build_virtual_directory(files);
    let config = CrateConfiguration::plain(root_dir, Edition::V2024_07, dependencies_on(&names));
    db.set_crate_config(project_name.to_owned(), config);
    let mut main_crates: Vec<CrateInput> = Vec::new();
    main_crates.push(CrateInput::plain(project_name));
    assert(crate_views(main_crates@) =~= seq![plain_crate(project_name@)]);
    main_crates
}

} // verus!
