//! Paths of files, as texts whose names stand between `/`.
use vstd::prelude::*;

use crate::text::{
    equal, followed_by, join, joined, lemma_position_of, names_of, position_of, split_first, texts,
};

verus! {

/// The path starts at the root of the file system.
pub open spec fn is_absolute(path: Seq<char>) -> bool {
    path.len() > 0 && path[0] == '/'
}

/// The names that are kept once one more name was followed: an empty name and `.` stay where they
/// are, `..` goes back by one name, and nothing is above the root.
pub open spec fn followed(kept: Seq<Seq<char>>, name: Seq<char>, absolute: bool) -> Seq<Seq<char>> {
    if name.len() == 0 || name == "."@ {
        kept
    } else if name != ".."@ {
        kept.push(name)
    } else if kept.len() > 0 && kept.last() != ".."@ {
        kept.drop_last()
    } else if absolute {
        kept
    } else {
        kept.push(name)
    }
}

/// The names that are kept once all names of a path were followed.
pub open spec fn kept_names(names: Seq<Seq<char>>, absolute: bool) -> Seq<Seq<char>>
    decreases names.len(),
{
    if names.len() == 0 {
        Seq::empty()
    } else {
        followed(kept_names(names.drop_last(), absolute), names.last(), absolute)
    }
}

/// The shortest path that leads where `path` does, going by the names alone.
pub open spec fn normalised(path: Seq<char>) -> Seq<char> {
    let absolute = is_absolute(path);
    let names = kept_names(names_of(path), absolute);
    if absolute {
        "/"@ + joined(names, "/"@)
    } else if names.len() == 0 {
        "."@
    } else {
        joined(names, "/"@)
    }
}

/// The path of a file in a directory. The empty path stands for the current directory.
pub open spec fn file_in(directory: Seq<char>, name: Seq<char>) -> Seq<char> {
    if directory.len() == 0 {
        name
    } else {
        directory + "/"@ + name
    }
}

/// The names of a path.
pub fn split_names(path: &str) -> (names: Vec<String>)
    ensures
        texts(names@) == names_of(path@),
{
    let mut names: Vec<String> = Vec::new();
    let mut rest: &str = path;
    assert(texts(names@) + names_of(rest@) =~= names_of(path@));
    loop
        invariant
            texts(names@) + names_of(rest@) == names_of(path@),
        decreases rest@.len(),
    {
        let ghost before = names@;
        let ghost whole = rest@;
        proof {
            lemma_position_of(rest@, '/');
        }
        match split_first(rest, '/') {
            Some((name, after)) => {
                names.push(name.to_owned());
                rest = after;
                proof {
                    let k = position_of(whole, '/');
                    assert(names_of(whole) == seq![whole.subrange(0, k)] + names_of(after@));
                    assert(texts(names@) =~= texts(before).push(name@));
                    assert(texts(names@) + names_of(rest@) =~= texts(before) + names_of(whole));
                }
            },
            None => {
                names.push(rest.to_owned());
                assert(texts(names@) =~= texts(before) + names_of(whole));
                return names;
            },
        }
    }
}

/// Follows one more name.
fn follow(kept: &mut Vec<String>, name: &String, absolute: bool)
    ensures
        texts(final(kept)@) == followed(texts(old(kept)@), name@, absolute),
{
    let ghost before = kept@;
    proof {
        reveal_strlit("");
    }
    if equal(name.as_str(), "") || equal(name.as_str(), ".") {
        return;
    }
    let back = equal(name.as_str(), "..");
    assert(name@.len() > 0) by {
        if name@.len() == 0 {
            assert(name@ =~= ""@);
        }
    }
    if back && kept.len() > 0 && !equal(kept[kept.len() - 1].as_str(), "..") {
        assert(texts(before).last() == before.last()@);
        kept.pop();
        assert(texts(kept@) =~= texts(before).drop_last());
    } else if !(back && absolute) {
        assert(back && before.len() > 0 ==> texts(before).last() == before.last()@);
        kept.push(name.clone());
        assert(texts(kept@) =~= texts(before).push(name@));
    } else {
        assert(before.len() > 0 ==> texts(before).last() == before.last()@);
    }
}

/// The shortest path that leads where `path` does, going by the names alone.
pub fn normalise(path: &str) -> (shortest: String)
    ensures
        shortest@ == normalised(path@),
{
    let absolute = path.unicode_len() > 0 && path.get_char(0) == '/';
    let names = split_names(path);
    let ghost all = names_of(path@);
    let mut kept: Vec<String> = Vec::new();
    let mut i: usize = 0;
    assert(texts(kept@) =~= kept_names(all.take(0), absolute));
    while i < names.len()
        invariant
            i <= names.len(),
            all == texts(names@),
            texts(kept@) == kept_names(all.take(i as int), absolute),
        decreases names.len() - i,
    {
        follow(&mut kept, &names[i], absolute);
        proof {
            assert(all.take(i + 1).drop_last() =~= all.take(i as int));
            assert(all.take(i + 1).last() == names@[i as int]@);
        }
        i = i + 1;
    }
    assert(all.take(i as int) =~= all);
    let text = join(&kept, "/");
    assert(texts(kept@).len() == kept@.len());
    if absolute {
        followed_by("/", text.as_str())
    } else if kept.len() == 0 {
        ".".to_owned()
    } else {
        text
    }
}

/// The path of a file in a directory.
pub fn file_in_directory(directory: &str, name: &str) -> (path: String)
    ensures
        path@ == file_in(directory@, name@),
{
    if directory.unicode_len() == 0 {
        name.to_owned()
    } else {
        let mut path = directory.to_owned();
        path.append("/");
        path.append(name);
        path
    }
}

} // verus!
