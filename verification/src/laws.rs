//! What holds of projects as a whole: where files end up, and which crates are registered.
use vstd::prelude::*;

use crate::config::cfg_kv;
use crate::database::{
    corelib_configuration, lemma_left_out, lemma_not_overridden, overridden, with_corelib,
    without_override, RootDatabaseView,
};
use crate::directory::{
    is_on_the_way, is_populated, last_content, resolve, source_file, stripped, tree_of, Directory,
    FileKind,
};
use crate::edition::{law_editions_have_names, Edition};
use crate::embedded::EmbeddedDir;
use crate::entries::lemma_lookup_at;
use crate::path::{file_in, normalised};
use crate::project::{
    dependency_configuration, dependency_configurations, dependency_edition, dependency_names,
    has_known_parent, may_be_parent, plain_dependencies, single_file_crate,
    with_single_file_project, with_virtual_project, with_virtual_project_and_deps,
    DependencyInputView,
};
use crate::run::run_database;
use crate::test_runner::test_database;
use crate::text::{lemma_names, lemma_position_of_is, lemma_same_names, names_of, starts_with};

verus! {

/// A path leads to the same place with `src/` in front of it as without.
pub proof fn law_src_prefix_is_no_part_of_a_path(path: Seq<char>)
    requires
        !starts_with(path, "src/"@),
    ensures
        resolve("src/"@ + path) == resolve(path),
{
    let longer = "src/"@ + path;
    assert(longer.subrange(0, "src/"@.len() as int) =~= "src/"@);
    assert(longer.subrange("src/"@.len() as int, longer.len() as int) =~= path);
    assert(stripped(longer) == path);
}

/// Two paths lead to the same place only if they are the same but for a `src/` in front.
pub proof fn law_different_paths_lead_to_different_places(a: Seq<char>, b: Seq<char>)
    ensures
        resolve(a) == resolve(b) <==> stripped(a) == stripped(b),
{
    if resolve(a) == resolve(b) {
        lemma_same_names(stripped(a), stripped(b));
    }
}

/// A `src/` further on in a path is a directory like any other: what is below a directory stands
/// where the rest of the path leads, taken as it is.
pub proof fn law_src_below_a_directory_is_kept(dir: Seq<char>, rest: Seq<char>)
    requires
        !dir.contains('/'),
        dir != "src"@,
    ensures
        resolve(dir + "/"@ + rest) == seq![dir] + names_of(rest),
{
    reveal_strlit("/");
    reveal_strlit("src/");
    reveal_strlit("src");
    let path = dir + "/"@ + rest;
    let k = dir.len() as int;
    assert(path[k] == '/');
    assert forall|i: int| 0 <= i < k implies path[i] != '/' by {
        assert(dir.contains(dir[i]));
    }
    if starts_with(path, "src/"@) {
        let head = path.subrange(0, 4);
        assert(head[3] == path[3] && head[0] == path[0] && head[1] == path[1] && head[2]
            == path[2]);
        assert(k == 3) by {
            if k < 3 {
                assert(head[k] == '/');
            }
            if k > 3 {
                assert(path[3] == '/');
            }
        }
        assert(dir =~= "src"@);
    }
    lemma_position_of_is(path, '/', k);
    assert(path.subrange(0, k) =~= dir);
    assert(path.subrange(k + 1, path.len() as int) =~= rest);
}

/// No name in a directory that files make up holds a `/`.
pub proof fn law_names_hold_no_separator(
    files: Seq<(Seq<char>, Seq<char>)>,
    path: Seq<Seq<char>>,
    i: int,
)
    requires
        tree_of(files)->files.dom().contains(path) || tree_of(files)->dirs.contains(path),
        0 <= i < path.len(),
    ensures
        !path[i].contains('/'),
{
    if tree_of(files)->files.dom().contains(path) {
        let k = lemma_content_of(files, path);
        lemma_names(stripped(files[k].0));
    } else {
        let k = choose|k: int|
            0 <= k < files.len() && is_on_the_way(path, resolve(#[trigger] files[k].0));
        lemma_names(stripped(files[k].0));
        assert(resolve(files[k].0).take(path.len() as int)[i] == path[i]);
    }
}

/// The directory that files make up is empty if and only if there are none, and nothing in it lies
/// on the file system.
pub proof fn law_only_no_files_make_an_empty_directory(files: Seq<(Seq<char>, Seq<char>)>)
    ensures
        tree_of(files)->files.dom() == Set::<Seq<Seq<char>>>::empty() <==> files.len() == 0,
        files.len() == 0 ==> tree_of(files)->dirs == set![Seq::<Seq<char>>::empty()],
        tree_of(files)->on_disk.dom() == Set::<Seq<Seq<char>>>::empty(),
{
    if files.len() > 0 {
        lemma_some_content(files, 0);
        assert(tree_of(files)->files.dom().contains(resolve(files[0].0)));
    } else {
        assert(tree_of(files)->files.dom() =~= Set::<Seq<Seq<char>>>::empty());
        assert forall|dir: Seq<Seq<char>>| #[trigger]
            tree_of(files)->dirs.contains(dir) <==> dir.len() == 0 by {}
        assert forall|dir: Seq<Seq<char>>| dir.len() == 0 implies #[trigger] set![
            Seq::<Seq<char>>::empty(),
        ].contains(dir) by {
            assert(dir =~= Seq::<Seq<char>>::empty());
        }
        assert(tree_of(files)->dirs =~= set![Seq::<Seq<char>>::empty()]);
    }
    assert(tree_of(files)->on_disk.dom() =~= Set::<Seq<Seq<char>>>::empty());
}

/// A directory in memory in which nothing lies on the file system is in memory at every depth.
pub proof fn law_nothing_on_disk_is_in_memory(dir: Directory)
    requires
        dir.well_formed(),
        dir is Virtual,
        dir@->on_disk == Map::<Seq<Seq<char>>, Seq<char>>::empty(),
    ensures
        dir.in_memory(),
    decreases dir,
{
    match dir {
        Directory::Real(_) => {},
        Directory::Virtual { files: _, dirs } => {
            assert forall|i: int| 0 <= i < dirs@.len() implies (
            #[trigger] dirs@[i]).1.in_memory() by {
                let name = dirs@[i].0@;
                let sub = dirs@[i].1;
                lemma_lookup_at(dirs@, i);
                assert forall|path: Seq<Seq<char>>| #[trigger] sub.disk_at(path) is None by {
                    let longer = seq![name] + path;
                    assert(longer.drop_first() =~= path);
                    assert(!dir@->on_disk.dom().contains(longer));
                    assert(dir.disk_at(longer) == sub.disk_at(path));
                }
                assert(sub.disk_at(Seq::empty()) is None);
                assert(sub@->on_disk =~= Map::<Seq<Seq<char>>, Seq<char>>::empty());
                law_nothing_on_disk_is_in_memory(sub);
            }
        },
    }
}

/// The same files, with `src/` in front of every path.
pub open spec fn under_src(files: Seq<(Seq<char>, Seq<char>)>) -> Seq<(Seq<char>, Seq<char>)> {
    files.map_values(|file: (Seq<char>, Seq<char>)| ("src/"@ + file.0, file.1))
}

/// Two lists make up the same directory if their paths lead to the same places, one by one.
proof fn lemma_same_places(a: Seq<(Seq<char>, Seq<char>)>, b: Seq<(Seq<char>, Seq<char>)>)
    requires
        a.len() == b.len(),
        forall|i: int|
            0 <= i < a.len() ==> resolve((#[trigger] a[i]).0) == resolve(b[i].0) && a[i].1 == b[i].1,
    ensures
        tree_of(a) == tree_of(b),
{
    assert forall|target: Seq<Seq<char>>| #[trigger]
        last_content(a, target) == last_content(b, target) by {
        lemma_same_content(a, b, target);
    }
    assert forall|dir: Seq<Seq<char>>| #[trigger] is_populated(a, dir) == is_populated(b, dir) by {
        if is_populated(a, dir) {
            let i = choose|i: int|
                0 <= i < a.len() && is_on_the_way(dir, resolve(#[trigger] a[i].0));
            assert(is_on_the_way(dir, resolve(b[i].0)));
        }
        if is_populated(b, dir) {
            let i = choose|i: int|
                0 <= i < b.len() && is_on_the_way(dir, resolve(#[trigger] b[i].0));
            assert(is_on_the_way(dir, resolve(a[i].0)));
        }
    }
    assert(tree_of(a)->files =~= tree_of(b)->files);
    assert(tree_of(a)->dirs =~= tree_of(b)->dirs);
}

/// Lists whose paths lead to the same places have the same content at each place.
proof fn lemma_same_content(
    a: Seq<(Seq<char>, Seq<char>)>,
    b: Seq<(Seq<char>, Seq<char>)>,
    target: Seq<Seq<char>>,
)
    requires
        a.len() == b.len(),
        forall|i: int|
            0 <= i < a.len() ==> resolve((#[trigger] a[i]).0) == resolve(b[i].0) && a[i].1 == b[i].1,
    ensures
        last_content(a, target) == last_content(b, target),
    decreases a.len(),
{
    if a.len() > 0 {
        let last = a.len() - 1;
        assert(resolve(a[last].0) == resolve(b[last].0));
        assert forall|i: int| 0 <= i < a.drop_last().len() implies resolve(
            (#[trigger] a.drop_last()[i]).0,
        ) == resolve(b.drop_last()[i].0) && a.drop_last()[i].1 == b.drop_last()[i].1 by {
            assert(a.drop_last()[i] == a[i]);
        }
        lemma_same_content(a.drop_last(), b.drop_last(), target);
    }
}

/// A project is the same whether the paths of its files are written with `src/` or without.
pub proof fn law_project_is_the_same_under_src(files: Seq<(Seq<char>, Seq<char>)>)
    requires
        forall|i: int| 0 <= i < files.len() ==> !starts_with((#[trigger] files[i]).0, "src/"@),
    ensures
        tree_of(under_src(files)) == tree_of(files),
{
    let moved = under_src(files);
    assert forall|i: int| 0 <= i < moved.len() implies resolve((#[trigger] moved[i]).0) == resolve(
        files[i].0,
    ) && moved[i].1 == files[i].1 by {
        law_src_prefix_is_no_part_of_a_path(files[i].0);
    }
    lemma_same_places(moved, files);
}

/// Nothing but the files of a list stands in the directory that they make up: what is found at a
/// place is what the last file that leads there holds.
proof fn lemma_content_of(files: Seq<(Seq<char>, Seq<char>)>, target: Seq<Seq<char>>) -> (i: int)
    requires
        last_content(files, target) is Some,
    ensures
        0 <= i < files.len(),
        resolve(files[i].0) == target,
        last_content(files, target) == Some(files[i].1),
    decreases files.len(),
{
    if resolve(files.last().0) == target {
        files.len() - 1
    } else {
        lemma_content_of(files.drop_last(), target)
    }
}

/// Where a file leads, there is some content.
proof fn lemma_some_content(files: Seq<(Seq<char>, Seq<char>)>, i: int)
    requires
        0 <= i < files.len(),
    ensures
        last_content(files, resolve(files[i].0)) is Some,
    decreases files.len(),
{
    if resolve(files.last().0) != resolve(files[i].0) {
        assert(files.drop_last()[i] == files[i]);
        lemma_some_content(files.drop_last(), i);
    }
}

/// What is written to a path is read back from where the path leads, unless a later file leads
/// there too.
pub proof fn law_file_is_read_back(files: Seq<(Seq<char>, Seq<char>)>, i: int)
    requires
        0 <= i < files.len(),
        forall|j: int|
            i < j < files.len() ==> resolve((#[trigger] files[j]).0) != resolve(files[i].0),
    ensures
        tree_of(files)->files.dom().contains(resolve(files[i].0)),
        tree_of(files)->files[resolve(files[i].0)] == source_file(
            resolve(files[i].0).last(),
            files[i].1,
        ),
{
    lemma_last_place(files, i);
}

/// What is written to a path is read back as it is, character by character, from a module of its
/// own that bears the last name of the path, unless a later file leads there too.
pub proof fn law_content_is_read_back(files: Seq<(Seq<char>, Seq<char>)>, i: int)
    requires
        0 <= i < files.len(),
        forall|j: int|
            i < j < files.len() ==> resolve((#[trigger] files[j]).0) != resolve(files[i].0),
    ensures
        tree_of(files) is Virtual,
        tree_of(files)->files.dom().contains(resolve(files[i].0)),
        tree_of(files)->files[resolve(files[i].0)].content == files[i].1,
        tree_of(files)->files[resolve(files[i].0)].name == resolve(files[i].0).last(),
        tree_of(files)->files[resolve(files[i].0)].parent is None,
        tree_of(files)->files[resolve(files[i].0)].code_mappings.len() == 0,
        tree_of(files)->files[resolve(files[i].0)].kind == FileKind::Module,
        !tree_of(files)->files[resolve(files[i].0)].original_item_removed,
{
    lemma_last_place(files, i);
}

/// Each file that is found holds the content of some file that was written to its place, and each
/// place that a file leads to holds a file.
pub proof fn law_found_content_was_written(
    files: Seq<(Seq<char>, Seq<char>)>,
    path: Seq<Seq<char>>,
)
    ensures
        tree_of(files)->files.dom().contains(path) <==> exists|i: int|
            0 <= i < files.len() && resolve((#[trigger] files[i]).0) == path,
        tree_of(files)->files.dom().contains(path) ==> exists|i: int|
            0 <= i < files.len() && resolve((#[trigger] files[i]).0) == path
                && tree_of(files)->files[path].content == files[i].1,
{
    if tree_of(files)->files.dom().contains(path) {
        let i = lemma_content_of(files, path);
        assert(resolve(files[i].0) == path);
    }
    if exists|i: int| 0 <= i < files.len() && resolve((#[trigger] files[i]).0) == path {
        let i = choose|i: int| 0 <= i < files.len() && resolve((#[trigger] files[i]).0) == path;
        lemma_some_content(files, i);
    }
}

/// A file that no later one leads to the place of is the last one there.
pub proof fn lemma_last_place(files: Seq<(Seq<char>, Seq<char>)>, i: int)
    requires
        0 <= i < files.len(),
        forall|j: int|
            i < j < files.len() ==> resolve((#[trigger] files[j]).0) != resolve(files[i].0),
    ensures
        last_content(files, resolve(files[i].0)) == Some(files[i].1),
    decreases files.len(),
{
    if i < files.len() - 1 {
        assert(resolve(files[files.len() - 1].0) != resolve(files[i].0));
        let before = files.drop_last();
        assert(before[i] == files[i]);
        assert forall|j: int| i < j < before.len() implies resolve((#[trigger] before[j]).0)
            != resolve(before[i].0) by {
            assert(before[j] == files[j]);
        }
        lemma_last_place(before, i);
    }
}

/// Every file that is found was written, with the name of the last part of its path.
pub proof fn law_found_file_was_written(
    files: Seq<(Seq<char>, Seq<char>)>,
    path: Seq<Seq<char>>,
)
    requires
        tree_of(files)->files.dom().contains(path),
    ensures
        exists|i: int|
            0 <= i < files.len() && resolve((#[trigger] files[i]).0) == path
                && tree_of(files)->files[path] == source_file(path.last(), files[i].1),
{
    let i = lemma_content_of(files, path);
    assert(resolve(files[i].0) == path);
}

/// Adding a file to a project changes what stands where its path leads, and no other file.
pub proof fn law_adding_a_file(
    files: Seq<(Seq<char>, Seq<char>)>,
    path: Seq<char>,
    content: Seq<char>,
)
    ensures
        tree_of(files.push((path, content)))->files == tree_of(files)->files.insert(
            resolve(path),
            source_file(resolve(path).last(), content),
        ),
{
    let after = files.push((path, content));
    assert(after.drop_last() =~= files);
    assert(tree_of(after)->files =~= tree_of(files)->files.insert(
        resolve(path),
        source_file(resolve(path).last(), content),
    ));
}

/// A directory is there if it is the root, or if some file stands in it or below it.
pub proof fn law_directories_hold_files(
    files: Seq<(Seq<char>, Seq<char>)>,
    dir: Seq<Seq<char>>,
)
    ensures
        tree_of(files)->dirs.contains(dir) <==> dir.len() == 0 || exists|path: Seq<Seq<char>>|
            tree_of(files)->files.dom().contains(path) && #[trigger] is_on_the_way(dir, path),
{
    if is_populated(files, dir) {
        let i = choose|i: int|
            0 <= i < files.len() && is_on_the_way(dir, resolve(#[trigger] files[i].0));
        lemma_some_content(files, i);
        assert(tree_of(files)->files.dom().contains(resolve(files[i].0)));
    }
    if exists|path: Seq<Seq<char>>|
        tree_of(files)->files.dom().contains(path) && #[trigger] is_on_the_way(dir, path) {
        let path = choose|path: Seq<Seq<char>>|
            tree_of(files)->files.dom().contains(path) && #[trigger] is_on_the_way(dir, path);
        let i = lemma_content_of(files, path);
        assert(is_on_the_way(dir, resolve(files[i].0)));
    }
}

/// No two paths are the same but for a `src/` in front.
pub open spec fn have_different_paths(files: Seq<(Seq<char>, Seq<char>)>) -> bool {
    forall|i: int, j: int|
        0 <= i < j < files.len() ==> stripped((#[trigger] files[i]).0) != stripped(
            (#[trigger] files[j]).0,
        )
}

/// The order in which the files of a project are listed makes no difference, if no two of their
/// paths are the same but for a `src/` in front.
pub proof fn law_order_of_files_is_irrelevant(
    files: Seq<(Seq<char>, Seq<char>)>,
    reordered: Seq<(Seq<char>, Seq<char>)>,
)
    requires
        have_different_paths(files),
        reordered.to_multiset() == files.to_multiset(),
    ensures
        tree_of(reordered) == tree_of(files),
{
    assert forall|i: int, j: int| 0 <= i < j < files.len() implies resolve(
        (#[trigger] files[i]).0,
    ) != resolve((#[trigger] files[j]).0) by {
        law_different_paths_lead_to_different_places(files[i].0, files[j].0);
    }
    files.to_multiset_ensures();
    reordered.to_multiset_ensures();
    assert forall|file: (Seq<char>, Seq<char>)| #[trigger]
        files.contains(file) == reordered.contains(file) by {
        assert(files.contains(file) <==> files.to_multiset().count(file) > 0);
        assert(reordered.contains(file) <==> reordered.to_multiset().count(file) > 0);
    }
    assert forall|target: Seq<Seq<char>>| #[trigger]
        last_content(files, target) == last_content(reordered, target) by {
        if last_content(reordered, target) is Some {
            let k = lemma_content_of(reordered, target);
            assert(files.contains(reordered[k]));
            let i = choose|i: int| 0 <= i < files.len() && files[i] == reordered[k];
            lemma_last_place(files, i);
        } else if last_content(files, target) is Some {
            let i = lemma_content_of(files, target);
            assert(files.contains(files[i]));
            assert(reordered.contains(files[i]));
            let k = choose|k: int| 0 <= k < reordered.len() && reordered[k] == files[i];
            lemma_some_content(reordered, k);
        }
    }
    assert forall|dir: Seq<Seq<char>>| #[trigger]
        is_populated(files, dir) == is_populated(reordered, dir) by {
        if is_populated(files, dir) {
            let i = choose|i: int|
                0 <= i < files.len() && is_on_the_way(dir, resolve(#[trigger] files[i].0));
            assert(files.contains(files[i]));
            assert(reordered.contains(files[i]));
            let k = choose|k: int| 0 <= k < reordered.len() && reordered[k] == files[i];
            assert(is_on_the_way(dir, resolve(reordered[k].0)));
        }
        if is_populated(reordered, dir) {
            let k = choose|k: int|
                0 <= k < reordered.len() && is_on_the_way(dir, resolve(#[trigger] reordered[k].0));
            assert(files.contains(reordered[k]));
            let i = choose|i: int| 0 <= i < files.len() && files[i] == reordered[k];
            assert(is_on_the_way(dir, resolve(files[i].0)));
        }
    }
    assert(tree_of(reordered)->files =~= tree_of(files)->files);
    assert(tree_of(reordered)->dirs =~= tree_of(files)->dirs);
}

/// A project is registered alike in whichever order its files are listed, so that nothing that is
/// done with it depends on that order.
pub proof fn law_project_does_not_depend_on_the_order_of_files(
    db: RootDatabaseView,
    project_name: Seq<char>,
    files: Seq<(Seq<char>, Seq<char>)>,
    reordered: Seq<(Seq<char>, Seq<char>)>,
    dependencies: Seq<(Seq<char>, DependencyInputView)>,
)
    requires
        have_different_paths(files),
        reordered.to_multiset() == files.to_multiset(),
    ensures
        with_virtual_project(db, project_name, reordered) == with_virtual_project(
            db,
            project_name,
            files,
        ),
        with_virtual_project_and_deps(db, project_name, reordered, dependencies)
            == with_virtual_project_and_deps(db, project_name, files, dependencies),
{
    law_order_of_files_is_irrelevant(files, reordered);
}

/// The crates that are configured for dependencies are those that bear their names.
proof fn lemma_configurations(
    dependencies: Seq<(Seq<char>, DependencyInputView)>,
    name: Seq<char>,
)
    ensures
        dependency_configurations(dependencies).dom().contains(name) <==> dependency_names(
            dependencies,
        ).contains(name),
    decreases dependencies.len(),
{
    let names = dependency_names(dependencies);
    if dependencies.len() > 0 {
        let before = dependencies.drop_last();
        lemma_configurations(before, name);
        assert(names.drop_last() =~= dependency_names(before));
        if names.contains(name) {
            let i = choose|i: int| 0 <= i < names.len() && names[i] == name;
            if i < names.len() - 1 {
                assert(dependency_names(before)[i] == name);
            }
        }
        if dependency_names(before).contains(name) {
            let i = choose|i: int|
                0 <= i < dependency_names(before).len() && dependency_names(before)[i] == name;
            assert(names[i] == name);
        }
        assert(names[names.len() - 1] == dependencies.last().0);
    }
}

/// A dependency that no later one bears the name of is configured as its own input says.
pub proof fn lemma_configured(dependencies: Seq<(Seq<char>, DependencyInputView)>, i: int)
    requires
        0 <= i < dependencies.len(),
        forall|j: int|
            i < j < dependencies.len() ==> (#[trigger] dependencies[j]).0 != dependencies[i].0,
    ensures
        dependency_configurations(dependencies).dom().contains(dependencies[i].0),
        dependency_configurations(dependencies)[dependencies[i].0] == dependency_configuration(
            dependencies[i].1,
        ),
    decreases dependencies.len(),
{
    if i < dependencies.len() - 1 {
        assert(dependencies[dependencies.len() - 1].0 != dependencies[i].0);
        let before = dependencies.drop_last();
        assert(before[i] == dependencies[i]);
        assert forall|j: int| i < j < before.len() implies (#[trigger] before[j]).0
            != before[i].0 by {
            assert(before[j] == dependencies[j]);
        }
        lemma_configured(before, i);
    }
}

/// Each dependency of a project is registered with its own files, edition and dependencies, and
/// the project depends on it. This is for dependencies that bear a name of their own.
pub proof fn law_dependency_is_registered(
    db: RootDatabaseView,
    project_name: Seq<char>,
    files: Seq<(Seq<char>, Seq<char>)>,
    dependencies: Seq<(Seq<char>, DependencyInputView)>,
    i: int,
)
    requires
        0 <= i < dependencies.len(),
        dependencies[i].0 != project_name,
        forall|j: int|
            i < j < dependencies.len() ==> (#[trigger] dependencies[j]).0 != dependencies[i].0,
    ensures
        ({
            let after = with_virtual_project_and_deps(db, project_name, files, dependencies);
            let (name, input) = dependencies[i];
            let config = after.crate_configs[name];
            &&& after.crate_configs.dom().contains(name)
            &&& config.root == tree_of(input.files)
            &&& config.settings.edition == dependency_edition(input.edition)
            &&& forall|sub: Seq<char>| #[trigger]
                config.settings.dependencies.dom().contains(sub) <==> input.dependencies.contains(
                    sub,
                )
            &&& after.crate_configs[project_name].settings.dependencies.dom().contains(name)
        }),
{
    lemma_configured(dependencies, i);
    let names = dependency_names(dependencies);
    assert(names[i] == dependencies[i].0);
    assert(names.contains(dependencies[i].0));
}

/// A dependency that names an edition is compiled in the edition of that name. One that names
/// none, or names it in a way that no edition is named, is compiled in the base edition. This is for
/// dependencies that bear a name of their own.
pub proof fn law_dependency_has_the_edition_that_it_names(
    db: RootDatabaseView,
    project_name: Seq<char>,
    files: Seq<(Seq<char>, Seq<char>)>,
    dependencies: Seq<(Seq<char>, DependencyInputView)>,
    i: int,
)
    requires
        0 <= i < dependencies.len(),
        dependencies[i].0 != project_name,
        forall|j: int|
            i < j < dependencies.len() ==> (#[trigger] dependencies[j]).0 != dependencies[i].0,
    ensures
        ({
            let after = with_virtual_project_and_deps(db, project_name, files, dependencies);
            let named = dependencies[i].1.edition;
            let edition = after.crate_configs[dependencies[i].0].settings.edition;
            &&& named == Some("2023_01"@) ==> edition == Edition::V2023_01
            &&& named == Some("2023_10"@) ==> edition == Edition::V2023_10
            &&& named == Some("2023_11"@) ==> edition == Edition::V2023_11
            &&& named == Some("2024_07"@) ==> edition == Edition::V2024_07
            &&& named == Some("2025_12"@) ==> edition == Edition::V2025_12
            &&& named is None ==> edition == Edition::V2023_01
            &&& edition == Edition::V2023_10 ==> named == Some("2023_10"@)
            &&& edition == Edition::V2023_11 ==> named == Some("2023_11"@)
            &&& edition == Edition::V2024_07 ==> named == Some("2024_07"@)
            &&& edition == Edition::V2025_12 ==> named == Some("2025_12"@)
        }),
{
    lemma_configured(dependencies, i);
    law_editions_have_names(dependencies[i].1.edition->0);
}

/// A project depends on its dependencies and on nothing else, and its files are its own.
pub proof fn law_project_is_registered(
    db: RootDatabaseView,
    project_name: Seq<char>,
    files: Seq<(Seq<char>, Seq<char>)>,
    dependencies: Seq<(Seq<char>, DependencyInputView)>,
)
    ensures
        ({
            let after = with_virtual_project_and_deps(db, project_name, files, dependencies);
            let config = after.crate_configs[project_name];
            &&& after.crate_configs.dom().contains(project_name)
            &&& config.root == tree_of(files)
            &&& forall|name: Seq<char>| #[trigger]
                config.settings.dependencies.dom().contains(name) <==> dependency_names(
                    dependencies,
                ).contains(name)
            &&& forall|name: Seq<char>|
                config.settings.dependencies.dom().contains(name)
                    ==> #[trigger] config.settings.dependencies[name] is None
        }),
{
}

/// Registering a project leaves every crate alone that is neither the project nor one of its
/// dependencies, and everything else that a database describes.
pub proof fn law_other_crates_are_left_alone(
    db: RootDatabaseView,
    project_name: Seq<char>,
    files: Seq<(Seq<char>, Seq<char>)>,
    dependencies: Seq<(Seq<char>, DependencyInputView)>,
    name: Seq<char>,
)
    requires
        name != project_name,
        !dependency_names(dependencies).contains(name),
    ensures
        ({
            let after = with_virtual_project_and_deps(db, project_name, files, dependencies);
            &&& after.crate_configs.dom().contains(name) <==> db.crate_configs.dom().contains(name)
            &&& db.crate_configs.dom().contains(name) ==> after.crate_configs[name]
                == db.crate_configs[name]
            &&& after.auto_withdraw_gas == db.auto_withdraw_gas
            &&& after.cfg_set == db.cfg_set
            &&& after.plugin_suites == db.plugin_suites
            &&& after.file_overrides == db.file_overrides
        }),
        ({
            let after = with_virtual_project(db, project_name, files);
            &&& after.crate_configs.dom().contains(name) <==> db.crate_configs.dom().contains(name)
            &&& db.crate_configs.dom().contains(name) ==> after.crate_configs[name]
                == db.crate_configs[name]
            &&& after.auto_withdraw_gas == db.auto_withdraw_gas
            &&& after.cfg_set == db.cfg_set
            &&& after.plugin_suites == db.plugin_suites
            &&& after.file_overrides == db.file_overrides
        }),
{
    lemma_configurations(dependencies, name);
}

/// The core library stays registered as it was embedded, whatever project is registered after it,
/// unless the project or one of its dependencies takes its name.
pub proof fn law_core_library_is_kept(
    db: RootDatabaseView,
    corelib: EmbeddedDir,
    project_name: Seq<char>,
    files: Seq<(Seq<char>, Seq<char>)>,
    dependencies: Seq<(Seq<char>, DependencyInputView)>,
    parent: Option<Seq<char>>,
    input: Seq<char>,
)
    requires
        project_name != "core"@,
        !dependency_names(dependencies).contains("core"@),
    ensures
        ({
            let before = with_corelib(db, corelib);
            let core = corelib_configuration(corelib.as_directory());
            let plain = with_virtual_project(before, project_name, files);
            let dependent = with_virtual_project_and_deps(
                before,
                project_name,
                files,
                dependencies,
            );
            let single = with_single_file_project(before, parent, input);
            &&& plain.crate_configs.dom().contains("core"@)
            &&& plain.crate_configs["core"@] == core
            &&& dependent.crate_configs.dom().contains("core"@)
            &&& dependent.crate_configs["core"@] == core
            &&& single.crate_configs.dom().contains("core"@)
            &&& single.crate_configs["core"@] == core
        }),
{
    let before = with_corelib(db, corelib);
    law_other_crates_are_left_alone(before, project_name, files, dependencies, "core"@);
    reveal_strlit("core");
    reveal_strlit("astro");
    assert("core"@.len() != single_file_crate().len());
}

/// No two dependencies bear the same name.
pub open spec fn have_different_names(
    dependencies: Seq<(Seq<char>, DependencyInputView)>,
) -> bool {
    forall|i: int, j: int|
        0 <= i < j < dependencies.len() ==> (#[trigger] dependencies[i]).0 != (
        #[trigger] dependencies[j]).0
}

/// The order in which dependencies are listed makes no difference, if no two of them bear the same
/// name.
pub proof fn law_order_of_dependencies_is_irrelevant(
    db: RootDatabaseView,
    project_name: Seq<char>,
    files: Seq<(Seq<char>, Seq<char>)>,
    dependencies: Seq<(Seq<char>, DependencyInputView)>,
    reordered: Seq<(Seq<char>, DependencyInputView)>,
)
    requires
        have_different_names(dependencies),
        reordered.to_multiset() == dependencies.to_multiset(),
    ensures
        with_virtual_project_and_deps(db, project_name, files, reordered)
            == with_virtual_project_and_deps(db, project_name, files, dependencies),
{
    dependencies.to_multiset_ensures();
    reordered.to_multiset_ensures();
    let names = dependency_names(dependencies);
    let other_names = dependency_names(reordered);
    let configs = dependency_configurations(dependencies);
    let other_configs = dependency_configurations(reordered);
    assert forall|entry: (Seq<char>, DependencyInputView)| #[trigger]
        dependencies.contains(entry) == reordered.contains(entry) by {
        assert(dependencies.contains(entry) <==> dependencies.to_multiset().count(entry) > 0);
        assert(reordered.contains(entry) <==> reordered.to_multiset().count(entry) > 0);
    }
    assert forall|name: Seq<char>| #[trigger]
        names.contains(name) == other_names.contains(name) by {
        if names.contains(name) {
            let i = choose|i: int| 0 <= i < names.len() && names[i] == name;
            assert(dependencies.contains(dependencies[i]));
            assert(reordered.contains(dependencies[i]));
            let k = choose|k: int| 0 <= k < reordered.len() && reordered[k] == dependencies[i];
            assert(other_names[k] == name);
        }
        if other_names.contains(name) {
            let k = choose|k: int| 0 <= k < other_names.len() && other_names[k] == name;
            assert(reordered.contains(reordered[k]));
            assert(dependencies.contains(reordered[k]));
            let i = choose|i: int| 0 <= i < dependencies.len() && dependencies[i] == reordered[k];
            assert(names[i] == name);
        }
    }
    assert forall|name: Seq<char>| names.contains(name) implies #[trigger] configs[name]
        == other_configs[name] by {
        lemma_configurations(reordered, name);
        let k = lemma_configuration_of(reordered, name);
        assert(reordered.contains(reordered[k]));
        assert(dependencies.contains(reordered[k]));
        let i = choose|i: int| 0 <= i < dependencies.len() && dependencies[i] == reordered[k];
        lemma_configured(dependencies, i);
    }
    assert forall|name: Seq<char>| #[trigger]
        configs.dom().contains(name) == other_configs.dom().contains(name) by {
        lemma_configurations(dependencies, name);
        lemma_configurations(reordered, name);
    }
    assert forall|name: Seq<char>| #[trigger] configs.dom().contains(name) implies names.contains(
        name,
    ) by {
        lemma_configurations(dependencies, name);
    }
    assert(configs =~= other_configs);
    assert(plain_dependencies(names) =~= plain_dependencies(other_names));
}

/// Every configuration of a dependency comes from its input.
proof fn lemma_configuration_of(
    dependencies: Seq<(Seq<char>, DependencyInputView)>,
    name: Seq<char>,
) -> (i: int)
    requires
        dependency_configurations(dependencies).dom().contains(name),
    ensures
        0 <= i < dependencies.len(),
        dependencies[i].0 == name,
        dependency_configurations(dependencies)[name] == dependency_configuration(
            dependencies[i].1,
        ),
    decreases dependencies.len(),
{
    if dependencies.last().0 == name {
        dependencies.len() - 1
    } else {
        lemma_configuration_of(dependencies.drop_last(), name)
    }
}

/// Registering a project again replaces its files.
pub proof fn law_project_is_replaced(
    db: RootDatabaseView,
    project_name: Seq<char>,
    files: Seq<(Seq<char>, Seq<char>)>,
    newer: Seq<(Seq<char>, Seq<char>)>,
)
    ensures
        with_virtual_project(with_virtual_project(db, project_name, files), project_name, newer)
            == with_virtual_project(db, project_name, newer),
{
    assert(with_virtual_project(
        with_virtual_project(db, project_name, files),
        project_name,
        newer,
    ).crate_configs =~= with_virtual_project(db, project_name, newer).crate_configs);
}

/// A single text is registered alike whether its crate is listed or not: there is one parent that a
/// path can have, wherever that parent is known on every platform.
pub proof fn law_single_text_is_registered_alike(
    db: RootDatabaseView,
    path: Seq<char>,
    input: Seq<char>,
    parent: Option<Seq<char>>,
    other: Option<Seq<char>>,
)
    requires
        has_known_parent(path),
        may_be_parent(path, parent),
        may_be_parent(path, other),
    ensures
        with_single_file_project(db, parent, input) == with_single_file_project(db, other, input),
{
}

/// Of two texts that are registered one after the other for the same file, the later one counts,
/// however the path of the file is written.
pub proof fn law_later_text_counts(
    db: RootDatabaseView,
    first: Seq<char>,
    input: Seq<char>,
    second: Seq<char>,
    newer: Seq<char>,
)
    requires
        normalised(file_in(first, "lib.cairo"@)) == normalised(file_in(second, "lib.cairo"@)),
    ensures
        with_single_file_project(
            with_single_file_project(db, Some(first), input),
            Some(second),
            newer,
        ).file_overrides == overridden(
            db.file_overrides,
            normalised(file_in(first, "lib.cairo"@)),
            newer,
        ),
{
    let path = normalised(file_in(first, "lib.cairo"@));
    let rest = without_override(db.file_overrides, path);
    let once = overridden(db.file_overrides, path, input);
    lemma_left_out(db.file_overrides, path);
    lemma_not_overridden(rest, path);
    assert(once.drop_last() =~= rest);
    assert(without_override(once, path) == rest);
}

/// The text that is registered last is the last one to be put in place, so that it counts even
/// where a platform reads two paths as one that differ here.
pub proof fn law_latest_text_is_put_in_place_last(
    db: RootDatabaseView,
    parent: Option<Seq<char>>,
    input: Seq<char>,
)
    ensures
        with_single_file_project(db, parent, input).file_overrides.len() > 0,
        with_single_file_project(db, parent, input).file_overrides.last().1 == input,
{
}

/// Registering the core library twice is the same as registering it once.
pub proof fn law_core_library_is_registered_once(db: RootDatabaseView, corelib: EmbeddedDir)
    ensures
        with_corelib(with_corelib(db, corelib), corelib) == with_corelib(db, corelib),
{
    assert(with_corelib(with_corelib(db, corelib), corelib).crate_configs =~= with_corelib(
        db,
        corelib,
    ).crate_configs);
}

/// A dependency is the same whether the paths of its files are written with `src/` or without.
pub proof fn law_dependency_is_the_same_under_src(input: DependencyInputView)
    requires
        forall|i: int|
            0 <= i < input.files.len() ==> !starts_with((#[trigger] input.files[i]).0, "src/"@),
    ensures
        dependency_configuration(
            DependencyInputView { files: under_src(input.files), ..input },
        ) == dependency_configuration(input),
{
    law_project_is_the_same_under_src(input.files);
}

/// Where no gas is counted, nothing withdraws gas, and code that is compiled for tests can tell.
pub proof fn law_gas_is_counted_everywhere_or_nowhere(
    available_gas: Option<usize>,
    gas_enabled: bool,
    starknet: bool,
    corelib: EmbeddedDir,
)
    ensures
        run_database(available_gas, corelib).auto_withdraw_gas <==> available_gas is Some,
        test_database(gas_enabled, starknet, corelib).auto_withdraw_gas <==> gas_enabled,
        test_database(gas_enabled, starknet, corelib).cfg_set->0.contains(
            cfg_kv("gas"@, "disabled"@),
        ) <==> !gas_enabled,
{
    reveal_strlit("gas");
    reveal_strlit("test");
    reveal_strlit("target");
    assert("gas"@.len() != "test"@.len());
    assert("gas"@.len() != "target"@.len());
}

} // verus!
