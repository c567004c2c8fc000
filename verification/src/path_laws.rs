//! What holds of paths on the file system: how they are shortened, and which directory a file is
//! in.
use vstd::prelude::*;

use crate::database::RootDatabaseView;
use crate::path::{file_in, followed, is_absolute, kept_names, normalised};
use crate::project::{
    is_component, is_directory_path, is_portable, may_be_parent, with_single_file_project,
    without_trailing_separators,
};
use crate::text::{joined, names_of, starts_with};
use crate::text_laws::{
    law_lists_are_joined_one_after_the_other, law_names_make_up_the_path,
    law_path_is_split_into_its_names,
};

verus! {

/// A name that leads on: it is not empty, it holds no separator, and it is neither `.` nor `..`.
pub open spec fn leads_on(name: Seq<char>) -> bool {
    name.len() > 0 && !name.contains('/') && name != "."@ && name != ".."@
}

/// A longer path has one name more.
proof fn lemma_longer_path(path: Seq<char>, name: Seq<char>)
    requires
        !name.contains('/'),
    ensures
        names_of(path + "/"@ + name) == names_of(path).push(name),
        path.len() > 0 ==> is_absolute(path + "/"@ + name) == is_absolute(path),
{
    reveal_strlit("/");
    law_names_make_up_the_path(path);
    let names = names_of(path).push(name);
    assert(names.drop_last() =~= names_of(path));
    assert(joined(names, "/"@) == path + "/"@ + name);
    assert forall|i: int| 0 <= i < names.len() implies !(#[trigger] names[i]).contains('/') by {
        if i < names_of(path).len() {
            assert(names[i] == names_of(path)[i]);
        }
    }
    law_path_is_split_into_its_names(names);
}

/// Which names are kept once one more is followed.
proof fn lemma_longer_kept(path: Seq<char>, name: Seq<char>)
    requires
        !name.contains('/'),
        path.len() > 0,
    ensures
        kept_names(names_of(path + "/"@ + name), is_absolute(path)) == followed(
            kept_names(names_of(path), is_absolute(path)),
            name,
            is_absolute(path),
        ),
        is_absolute(path + "/"@ + name) == is_absolute(path),
{
    lemma_longer_path(path, name);
    assert(names_of(path).push(name).drop_last() =~= names_of(path));
}

/// Names that are kept are not empty, hold no separator and are not `.`; a `..` among them follows
/// nothing but `..`, and there is none in an absolute path.
proof fn lemma_kept(names: Seq<Seq<char>>, absolute: bool)
    requires
        forall|i: int| 0 <= i < names.len() ==> !(#[trigger] names[i]).contains('/'),
    ensures
        forall|i: int|
            0 <= i < kept_names(names, absolute).len() ==> (#[trigger] kept_names(
                names,
                absolute,
            )[i]).len() > 0 && !kept_names(names, absolute)[i].contains('/') && kept_names(
                names,
                absolute,
            )[i] != "."@ && (absolute ==> kept_names(names, absolute)[i] != ".."@),
        forall|i: int, j: int|
            0 <= j < i < kept_names(names, absolute).len() && #[trigger] kept_names(
                names,
                absolute,
            )[i] == ".."@ ==> #[trigger] kept_names(names, absolute)[j] == ".."@,
    decreases names.len(),
{
    if names.len() > 0 {
        let before = names.drop_last();
        assert forall|i: int| 0 <= i < before.len() implies !(#[trigger] before[i]).contains(
            '/',
        ) by {
            assert(before[i] == names[i]);
        }
        lemma_kept(before, absolute);
        let kept = kept_names(before, absolute);
        let name = names.last();
        let after = kept_names(names, absolute);
        assert(!names[names.len() - 1].contains('/'));
        if name == ".."@ && kept.len() > 0 && kept.last() == ".."@ {
            assert forall|j: int| 0 <= j < kept.len() implies #[trigger] kept[j] == ".."@ by {
                if j < kept.len() - 1 {
                    assert(kept[kept.len() - 1] == ".."@);
                }
            }
        }
        assert forall|i: int| 0 <= i < after.len() implies (#[trigger] after[i]).len() > 0
            && !after[i].contains('/') && after[i] != "."@ && (absolute ==> after[i] != ".."@) by {
            if i < kept.len() {
                assert(after[i] == kept[i]);
            }
        }
        assert forall|i: int, j: int|
            0 <= j < i < after.len() && #[trigger] after[i] == ".."@ implies #[trigger] after[j]
            == ".."@ by {
            assert(after[j] == kept[j]);
            if i < kept.len() {
                assert(after[i] == kept[i]);
            }
        }
    }
}

/// Names that are kept make up a path that is not empty, does not start at the root and is not the
/// current directory.
proof fn lemma_kept_path(kept: Seq<Seq<char>>)
    requires
        kept.len() > 0,
        forall|i: int|
            0 <= i < kept.len() ==> (#[trigger] kept[i]).len() > 0 && !kept[i].contains('/')
                && kept[i] != "."@,
    ensures
        joined(kept, "/"@).len() > 0,
        joined(kept, "/"@)[0] != '/',
        joined(kept, "/"@) != "."@,
    decreases kept.len(),
{
    reveal_strlit("/");
    reveal_strlit(".");
    assert(kept[0].contains(kept[0][0]));
    if kept.len() > 1 {
        let front = kept.drop_last();
        assert forall|i: int| 0 <= i < front.len() implies (#[trigger] front[i]).len() > 0
            && !front[i].contains('/') && front[i] != "."@ by {
            assert(front[i] == kept[i]);
        }
        lemma_kept_path(front);
    }
}

/// The shortest path and the names that it keeps.
proof fn lemma_shortest(path: Seq<char>)
    ensures
        ({
            let kept = kept_names(names_of(path), is_absolute(path));
            let short = normalised(path);
            &&& is_absolute(path) ==> short == "/"@ + joined(kept, "/"@)
            &&& !is_absolute(path) && kept.len() > 0 ==> short == joined(kept, "/"@)
            &&& short == "."@ <==> !is_absolute(path) && kept.len() == 0
            &&& short == "/"@ <==> is_absolute(path) && kept.len() == 0
            &&& kept.len() > 0 ==> joined(kept, "/"@).len() > 0
        }),
{
    reveal_strlit("/");
    reveal_strlit(".");
    let kept = kept_names(names_of(path), is_absolute(path));
    law_names_make_up_the_path(path);
    lemma_kept(names_of(path), is_absolute(path));
    if kept.len() > 0 {
        lemma_kept_path(kept);
    } else {
        assert(joined(kept, "/"@) =~= Seq::empty());
        assert("/"@ + joined(kept, "/"@) =~= "/"@);
    }
    assert("/"@[0] == '/' && "."@[0] == '.');
}

/// A name that leads on is added to the shortest path of its directory. The current directory is not
/// written in front of it.
pub proof fn law_name_is_added_to_the_shortest_path(path: Seq<char>, name: Seq<char>)
    requires
        path.len() > 0,
        leads_on(name),
    ensures
        normalised(path) == "."@ ==> normalised(path + "/"@ + name) == name,
        normalised(path) == "/"@ ==> normalised(path + "/"@ + name) == "/"@ + name,
        normalised(path) != "."@ && normalised(path) != "/"@ ==> normalised(path + "/"@ + name)
            == normalised(path) + "/"@ + name,
{
    let longer = path + "/"@ + name;
    let kept = kept_names(names_of(path), is_absolute(path));
    lemma_longer_kept(path, name);
    lemma_shortest(path);
    lemma_shortest(longer);
    let after = kept.push(name);
    assert(after.drop_last() =~= kept);
    if kept.len() == 0 {
        assert(joined(after, "/"@) == name);
    } else {
        assert(joined(after, "/"@) == joined(kept, "/"@) + "/"@ + name);
        assert("/"@ + (joined(kept, "/"@) + "/"@ + name) =~= "/"@ + joined(kept, "/"@) + "/"@
            + name);
    }
}

/// An empty name and `.` lead nowhere, and `..` takes back the name before it.
pub proof fn law_detours_are_left_out(path: Seq<char>, name: Seq<char>)
    requires
        path.len() > 0,
        leads_on(name),
    ensures
        normalised(path + "/"@) == normalised(path),
        normalised(path + "/."@) == normalised(path),
        normalised(path + "/"@ + name + "/.."@) == normalised(path),
{
    reveal_strlit("/");
    reveal_strlit("/.");
    reveal_strlit("/..");
    reveal_strlit(".");
    reveal_strlit("..");
    let kept = kept_names(names_of(path), is_absolute(path));
    lemma_longer_kept(path, Seq::empty());
    assert(path + "/"@ + Seq::<char>::empty() =~= path + "/"@);
    assert(!"."@.contains('/'));
    lemma_longer_kept(path, "."@);
    assert(path + "/"@ + "."@ =~= path + "/."@);
    let longer = path + "/"@ + name;
    lemma_longer_kept(path, name);
    assert(!".."@.contains('/'));
    lemma_longer_kept(longer, ".."@);
    assert(longer + "/"@ + ".."@ =~= longer + "/.."@);
    assert(kept.push(name).drop_last() =~= kept);
}

/// Nothing is above the root. Above the current directory, and above what is above it, `..` is
/// kept.
pub proof fn law_way_up_ends_at_the_root(path: Seq<char>, steps: Seq<Seq<char>>)
    requires
        path.len() > 0,
        steps.len() > 0,
        forall|i: int| 0 <= i < steps.len() ==> #[trigger] steps[i] == ".."@,
    ensures
        normalised(path) == "/"@ ==> normalised(path + "/.."@) == "/"@,
        normalised(path) == "."@ ==> normalised(path + "/.."@) == ".."@,
        normalised(path) == joined(steps, "/"@) ==> normalised(path + "/.."@) == joined(
            steps,
            "/"@,
        ) + "/.."@,
{
    reveal_strlit("/");
    reveal_strlit("/..");
    reveal_strlit(".");
    reveal_strlit("..");
    let absolute = is_absolute(path);
    let kept = kept_names(names_of(path), absolute);
    assert(!".."@.contains('/'));
    lemma_longer_kept(path, ".."@);
    assert(path + "/"@ + ".."@ =~= path + "/.."@);
    lemma_shortest(path);
    lemma_shortest(path + "/.."@);
    law_names_make_up_the_path(path);
    lemma_kept(names_of(path), absolute);
    if normalised(path) == "."@ {
        assert(kept.push(".."@).len() == 1);
        assert(joined(kept.push(".."@), "/"@) == ".."@);
    }
    if normalised(path) == joined(steps, "/"@) {
        assert forall|i: int| 0 <= i < steps.len() implies (#[trigger] steps[i]).len() > 0
            && !steps[i].contains('/') && steps[i] != "."@ by {
            assert(steps[i] == ".."@);
            assert(steps[i].len() == 2);
        }
        lemma_kept_path(steps);
        assert(!absolute);
        law_path_is_split_into_its_names(steps);
        law_path_is_split_into_its_names(kept);
        assert(kept == steps);
        assert(steps[steps.len() - 1] == ".."@);
        assert(kept.push(".."@).drop_last() =~= kept);
        assert(joined(steps, "/"@) + "/"@ + ".."@ =~= joined(steps, "/"@) + "/.."@);
    }
}

/// The shortest paths of single names, alone and below the root.
pub proof fn law_short_paths_stay(name: Seq<char>)
    requires
        leads_on(name),
    ensures
        normalised(name) == name,
        normalised("/"@ + name) == "/"@ + name,
        normalised(""@) == "."@,
        normalised("."@) == "."@,
        normalised(".."@) == ".."@,
        normalised("/"@) == "/"@,
        normalised("/."@) == "/"@,
        normalised("/.."@) == "/"@,
{
    reveal_strlit("/");
    reveal_strlit("/.");
    reveal_strlit("/..");
    reveal_strlit("");
    reveal_strlit(".");
    reveal_strlit("..");
    assert(!"."@.contains('/') && !".."@.contains('/') && !""@.contains('/'));
    lemma_single(name);
    lemma_single(""@);
    lemma_single("."@);
    lemma_single(".."@);
    assert(""@ =~= Seq::empty());
    assert("/"@ + Seq::<char>::empty() =~= "/"@);
    assert("/"@ + "."@ =~= "/."@);
    assert("/"@ + ".."@ =~= "/.."@);
    assert("/"@ + ""@ =~= "/"@);
    assert(name.contains(name[0]));
    assert("."@ != ".."@);
}

/// The shortest path of a single name, alone and below the root.
proof fn lemma_single(name: Seq<char>)
    requires
        !name.contains('/'),
    ensures
        ({
            let alone = followed(Seq::empty(), name, false);
            let below = followed(Seq::empty(), name, true);
            &&& alone.len() == 0 ==> normalised(name) == "."@
            &&& alone.len() > 0 ==> normalised(name) == joined(alone, "/"@)
            &&& normalised("/"@ + name) == "/"@ + joined(below, "/"@)
        }),
{
    reveal_strlit("/");
    let none = Seq::<Seq<char>>::empty();
    assert(name.len() > 0 ==> name.contains(name[0]));
    assert(!is_absolute(name));
    assert(seq![name].drop_last() =~= none);
    law_path_is_split_into_its_names(seq![name]);
    assert(joined(seq![name], "/"@) == name);
    assert(names_of(name) == seq![name]);
    assert(kept_names(none, false) == none);
    assert(kept_names(seq![name], false) == followed(none, name, false));
    let empty = Seq::<char>::empty();
    lemma_longer_path(empty, name);
    assert(empty + "/"@ + name =~= "/"@ + name);
    law_path_is_split_into_its_names(seq![empty]);
    assert(joined(seq![empty], "/"@) == empty);
    assert(names_of(empty) == seq![empty]);
    assert(seq![empty].drop_last() =~= none);
    assert(kept_names(none, true) == none);
    assert(kept_names(seq![empty], true) == none);
    assert(seq![empty].push(name).drop_last() =~= seq![empty]);
    assert(names_of("/"@ + name) == seq![empty].push(name));
    assert(kept_names(seq![empty].push(name), true) == followed(none, name, true));
    assert(is_absolute("/"@ + name));
}

/// Names that are kept are kept again.
proof fn lemma_kept_again(kept: Seq<Seq<char>>, absolute: bool)
    requires
        forall|i: int|
            0 <= i < kept.len() ==> (#[trigger] kept[i]).len() > 0 && kept[i] != "."@ && (absolute
                ==> kept[i] != ".."@),
        forall|i: int, j: int|
            0 <= j < i < kept.len() && #[trigger] kept[i] == ".."@ ==> #[trigger] kept[j] == ".."@,
    ensures
        kept_names(kept, absolute) == kept,
    decreases kept.len(),
{
    if kept.len() > 0 {
        let before = kept.drop_last();
        assert forall|i: int| 0 <= i < before.len() implies (#[trigger] before[i]).len() > 0
            && before[i] != "."@ && (absolute ==> before[i] != ".."@) by {
            assert(before[i] == kept[i]);
        }
        assert forall|i: int, j: int|
            0 <= j < i < before.len() && #[trigger] before[i] == ".."@ implies #[trigger] before[j]
            == ".."@ by {
            assert(before[i] == kept[i] && before[j] == kept[j]);
        }
        lemma_kept_again(before, absolute);
        let last = kept.len() - 1;
        assert(kept[last].len() > 0 && kept[last] != "."@);
        if kept[last] == ".."@ && last > 0 {
            assert(kept[last - 1] == ".."@);
        }
        assert(before.push(kept.last()) =~= kept);
    }
}

/// A path that is the shortest already stays as it is.
pub proof fn law_shortest_path_stays(path: Seq<char>)
    ensures
        normalised(normalised(path)) == normalised(path),
{
    reveal_strlit("/");
    reveal_strlit(".");
    reveal_strlit("a");
    let absolute = is_absolute(path);
    let kept = kept_names(names_of(path), absolute);
    let short = normalised(path);
    law_names_make_up_the_path(path);
    lemma_kept(names_of(path), absolute);
    lemma_kept_again(kept, absolute);
    lemma_shortest(path);
    if kept.len() == 0 {
        assert("a"@ != "."@) by {
            assert("a"@[0] == 'a' && "."@[0] == '.');
        }
        reveal_strlit("..");
        assert("a"@.len() != ".."@.len());
        assert(!"a"@.contains('/'));
        law_short_paths_stay("a"@);
    } else {
        lemma_kept_path(kept);
        law_path_is_split_into_its_names(kept);
        if absolute {
            let empty = Seq::<char>::empty();
            let names = seq![empty] + kept;
            assert(names.len() > 1);
            law_lists_are_joined_one_after_the_other(seq![empty], kept, "/"@);
            assert(empty + "/"@ + joined(kept, "/"@) =~= short);
            assert forall|i: int| 0 <= i < names.len() implies !(#[trigger] names[i]).contains(
                '/',
            ) by {
                if i > 0 {
                    assert(names[i] == kept[i - 1]);
                }
            }
            law_path_is_split_into_its_names(names);
            lemma_kept_below_the_root(kept);
        }
    }
}

/// The empty name in front of an absolute path changes nothing.
proof fn lemma_kept_below_the_root(kept: Seq<Seq<char>>)
    ensures
        kept_names(seq![Seq::<char>::empty()] + kept, true) == kept_names(kept, true),
    decreases kept.len(),
{
    let names = seq![Seq::<char>::empty()] + kept;
    if kept.len() == 0 {
        assert(names.drop_last() =~= Seq::empty());
        assert(kept_names(names.drop_last(), true) =~= Seq::empty());
    } else {
        assert(names.drop_last() =~= seq![Seq::<char>::empty()] + kept.drop_last());
        lemma_kept_below_the_root(kept.drop_last());
    }
}

/// A file in a directory is named behind it. In the current directory, written as an empty path, it
/// is named alone.
pub proof fn law_file_is_named_behind_its_directory(directory: Seq<char>, name: Seq<char>)
    ensures
        directory.len() > 0 ==> file_in(directory, name) == directory + "/"@ + name,
        file_in(Seq::empty(), name) == name,
{
}

/// The separators at the end of a path are left out, but for the root.
proof fn lemma_no_trailing_separators(path: Seq<char>)
    requires
        path.len() <= 1 || path.last() != '/',
    ensures
        without_trailing_separators(path) == path,
        path.len() > 0 && path.last() != '/' ==> without_trailing_separators(path.push('/')) == path,
{
    if path.len() > 0 && path.last() != '/' {
        assert(path.push('/').drop_last() =~= path);
        assert(path.push('/').last() == '/');
        assert(without_trailing_separators(path.push('/')) == without_trailing_separators(path));
    }
}

/// Any number of separators at the end of a path changes nothing.
proof fn lemma_trailing_separators(path: Seq<char>, separators: Seq<char>)
    requires
        path.len() > 0,
        path.last() != '/',
        forall|i: int| 0 <= i < separators.len() ==> #[trigger] separators[i] == '/',
    ensures
        without_trailing_separators(path + separators) == path,
    decreases separators.len(),
{
    let longer = path + separators;
    if separators.len() == 0 {
        assert(longer =~= path);
    } else {
        let fewer = separators.drop_last();
        assert(longer.last() == separators[separators.len() - 1]);
        assert(longer.drop_last() =~= path + fewer);
        lemma_trailing_separators(path, fewer);
    }
}

/// A path is in the same directory whether or not separators follow at its end, however many they
/// are.
pub proof fn law_separators_at_the_end_change_nothing(
    path: Seq<char>,
    separators: Seq<char>,
    parent: Option<Seq<char>>,
)
    requires
        path.len() > 0,
        path.last() != '/',
        forall|i: int| 0 <= i < separators.len() ==> #[trigger] separators[i] == '/',
    ensures
        may_be_parent(path + separators, parent) <==> may_be_parent(path, parent),
{
    reveal_strlit("//");
    let longer = path + separators;
    lemma_trailing_separators(path, separators);
    lemma_trailing_separators(path, Seq::empty());
    assert(path + Seq::<char>::empty() =~= path);
    assert forall|c: char| c != '/' implies longer.contains(c) == path.contains(c) by {
        if longer.contains(c) {
            let i = choose|i: int| 0 <= i < longer.len() && longer[i] == c;
            if i >= path.len() {
                assert(separators[i - path.len()] == '/');
            }
            assert(path[i] == c);
        }
        if path.contains(c) {
            let i = choose|i: int| 0 <= i < path.len() && path[i] == c;
            assert(longer[i] == c);
        }
    }
    if path.len() == 1 {
        assert(starts_with(longer, "//"@) ==> longer.subrange(0, 2)[0] == longer[0]);
    } else {
        assert(longer.subrange(0, 2) =~= path.subrange(0, 2));
    }
}

/// A single text is registered beside its file: a file that is named alone is in the current
/// directory, written as an empty path. This is for names that every platform reads alike.
pub proof fn law_text_is_registered_in_the_current_directory(
    name: Seq<char>,
    parent: Option<Seq<char>>,
)
    requires
        name.len() > 0,
        !name.contains('/') && !name.contains('\\') && !name.contains(':'),
        may_be_parent(name, parent) || may_be_parent(name.push('/'), parent),
    ensures
        parent == Some(Seq::<char>::empty()),
{
    reveal_strlit("//");
    let longer = name.push('/');
    assert(name.contains(name[0]) && name.contains(name.last()));
    assert(starts_with(name, "//"@) ==> name.subrange(0, 2)[0] == name[0]);
    assert(starts_with(longer, "//"@) ==> longer.subrange(0, 2)[0] == longer[0]);
    assert forall|c: char| c != '/' && longer.contains(c) implies name.contains(c) by {
        let i = choose|i: int| 0 <= i < longer.len() && longer[i] == c;
        assert(name[i] == c);
    }
    lemma_no_trailing_separators(name);
}

/// A single text is registered beside its file: in the directory that is written in front of the
/// name of the file, or in the root. This is for paths that every platform reads alike.
pub proof fn law_text_is_registered_in_its_directory(
    directory: Seq<char>,
    name: Seq<char>,
    parent: Option<Seq<char>>,
    below_root: Option<Seq<char>>,
)
    requires
        name.len() > 0 && name != "."@ && !name.contains('/'),
        directory == "."@ || names_of(directory).last().len() > 0 && names_of(directory).last()
            != "."@,
        !directory.contains('\\') && !directory.contains(':') && !name.contains('\\')
            && !name.contains(':'),
        !starts_with(directory + "/"@ + name, "//"@),
        may_be_parent(directory + "/"@ + name, parent),
        may_be_parent("/"@ + name, below_root),
    ensures
        parent == Some(directory),
        below_root == Some("/"@),
{
    reveal_strlit("/");
    reveal_strlit("//");
    let path = directory + "/"@ + name;
    let root = "/"@ + name;
    law_names_make_up_the_path(directory);
    let last = names_of(directory).len() - 1;
    assert(!names_of(directory)[last].contains('/'));
    assert(is_component(name));
    assert(is_directory_path(directory));
    assert(name.contains(name.last()));
    assert(path.last() == name.last() && root.last() == name.last());
    assert forall|c: char| c != '/' && path.contains(c) implies directory.contains(c)
        || name.contains(c) by {
        let i = choose|i: int| 0 <= i < path.len() && path[i] == c;
        if i < directory.len() {
            assert(directory[i] == c);
        } else {
            assert(i > directory.len());
            assert(name[i - directory.len() - 1] == c);
        }
    }
    assert(is_portable(path));
    lemma_no_trailing_separators(path);
    assert forall|c: char| c != '/' && root.contains(c) implies name.contains(c) by {
        let i = choose|i: int| 0 <= i < root.len() && root[i] == c;
        assert(name[i - 1] == c);
    }
    if starts_with(root, "//"@) {
        assert(root.subrange(0, 2)[1] == root[1]);
        assert(name.contains(name[0]));
    }
    lemma_no_trailing_separators(root);
}

/// Neither the empty path nor the root is in a directory, so that a text is registered in the
/// current one.
pub proof fn law_root_is_in_no_directory(parent: Option<Seq<char>>)
    requires
        may_be_parent(Seq::empty(), parent) || may_be_parent("/"@, parent),
    ensures
        parent is None,
{
    reveal_strlit("/");
    reveal_strlit("//");
    assert(!Seq::<char>::empty().contains('\\') && !Seq::<char>::empty().contains(':'));
    assert(!"/"@.contains('\\') && !"/"@.contains(':'));
    assert("/"@.drop_last() =~= Seq::empty());
}

/// A single text in the current directory stands for the file `lib.cairo`, however that directory is
/// written.
pub proof fn law_text_in_the_current_directory_is_the_main_file(
    db: RootDatabaseView,
    input: Seq<char>,
)
    ensures
        with_single_file_project(db, None, input).file_overrides.last() == ("lib.cairo"@, input),
        with_single_file_project(db, Some(Seq::empty()), input).file_overrides.last() == (
            "lib.cairo"@,
            input,
        ),
        with_single_file_project(db, Some("."@), input).file_overrides.last() == (
            "lib.cairo"@,
            input,
        ),
        with_single_file_project(db, Some("/"@), input).file_overrides.last() == (
            "/lib.cairo"@,
            input,
        ),
{
    reveal_strlit("lib.cairo");
    reveal_strlit("/lib.cairo");
    reveal_strlit("/");
    reveal_strlit(".");
    reveal_strlit("..");
    assert("lib.cairo"@.len() != "."@.len() && "lib.cairo"@.len() != ".."@.len());
    assert(leads_on("lib.cairo"@));
    law_short_paths_stay("lib.cairo"@);
    law_name_is_added_to_the_shortest_path("."@, "lib.cairo"@);
    law_name_is_added_to_the_shortest_path("/"@, "lib.cairo"@);
    assert("/"@ + "lib.cairo"@ =~= "/lib.cairo"@);
}

} // verus!
