//! Virtual directories: trees of source files that never touch the file system.
use vstd::prelude::*;

use crate::entries::{distinct, lookup, position, set_entry};
use crate::entries::{lemma_lookup_at, lemma_lookup_none, lemma_lookup_some};
use crate::text::{
    lemma_position_of, names_of, position_of, split_first, starts_with, strip_prefix,
};

verus! {

/// Whether a file holds syntax for a module, an expression or a list of statements.
#[derive(Clone, Copy, Debug, PartialEq, Eq, Structural)]
pub enum FileKind {
    Module,
    Expr,
    StatementList,
}

/// A range of offsets in a text.
#[derive(Clone, Copy, Debug, PartialEq, Eq, Structural)]
pub struct TextSpan {
    pub start: u32,
    pub end: u32,
}

/// A range in a named file.
#[derive(Debug)]
pub struct SpanInFile {
    pub file: String,
    pub span: TextSpan,
}

/// Where generated code comes from.
#[derive(Clone, Copy, Debug, PartialEq, Eq, Structural)]
pub enum CodeOrigin {
    Start(u32),
    Span(TextSpan),
    CallSite(TextSpan),
}

/// A mapping from generated code to its origin.
#[derive(Clone, Copy, Debug, PartialEq, Eq, Structural)]
pub struct CodeMapping {
    pub span: TextSpan,
    pub origin: CodeOrigin,
}

/// A source file that is held in memory.
#[derive(Debug)]
pub struct VirtualFile {
    pub parent: Option<SpanInFile>,
    pub name: String,
    pub content: String,
    pub code_mappings: Vec<CodeMapping>,
    pub kind: FileKind,
    pub original_item_removed: bool,
}

/// What a [`VirtualFile`] holds.
#[verifier::ext_equal]
pub struct VirtualFileView {
    pub parent: Option<SpanInFile>,
    pub name: Seq<char>,
    pub content: Seq<char>,
    pub code_mappings: Seq<CodeMapping>,
    pub kind: FileKind,
    pub original_item_removed: bool,
}

impl View for VirtualFile {
    type V = VirtualFileView;

    open spec fn view(&self) -> VirtualFileView {
        VirtualFileView {
            parent: self.parent,
            name: self.name@,
            content: self.content@,
            code_mappings: self.code_mappings@,
            kind: self.kind,
            original_item_removed: self.original_item_removed,
        }
    }
}

/// A directory on the file system, or one that is held in memory.
#[derive(Debug)]
pub enum Directory {
    /// A directory on the file system, by its path.
    Real(String),
    /// A directory in memory: its files and its sub-directories, by their names.
    Virtual { files: Vec<(String, VirtualFile)>, dirs: Vec<(String, Directory)> },
}

/// What a [`Directory`] holds. A directory in memory is the files that can be reached in it, each
/// by the names on the way to it, the directories in memory that can be reached, itself among them,
/// and the directories on the file system that can be reached, each with its path there.
#[verifier::ext_equal]
pub enum DirectoryView {
    Real(Seq<char>),
    Virtual {
        files: Map<Seq<Seq<char>>, VirtualFileView>,
        dirs: Set<Seq<Seq<char>>>,
        on_disk: Map<Seq<Seq<char>>, Seq<char>>,
    },
}

impl Directory {
    /// The file that the names of `path` lead to.
    pub open spec fn file_at(self, path: Seq<Seq<char>>) -> Option<VirtualFileView>
        decreases path.len(),
    {
        match self {
            Directory::Real(_) => None,
            Directory::Virtual { files, dirs } => {
                if path.len() == 0 {
                    None
                } else if path.len() == 1 {
                    match lookup(files@, path[0]) {
                        Some(file) => Some(file@),
                        None => None,
                    }
                } else {
                    match lookup(dirs@, path[0]) {
                        Some(dir) => dir.file_at(path.drop_first()),
                        None => None,
                    }
                }
            },
        }
    }

    /// The names of `path` lead to a directory in memory.
    pub open spec fn has_dir(self, path: Seq<Seq<char>>) -> bool
        decreases path.len(),
    {
        match self {
            Directory::Real(_) => false,
            Directory::Virtual { files: _, dirs } => {
                if path.len() == 0 {
                    true
                } else {
                    match lookup(dirs@, path[0]) {
                        Some(dir) => dir.has_dir(path.drop_first()),
                        None => false,
                    }
                }
            },
        }
    }

    /// The path on the file system of the directory that the names of `path` lead to, if it lies
    /// there.
    pub open spec fn disk_at(self, path: Seq<Seq<char>>) -> Option<Seq<char>>
        decreases path.len(),
    {
        match self {
            Directory::Real(place) => if path.len() == 0 {
                Some(place@)
            } else {
                None
            },
            Directory::Virtual { files: _, dirs } => {
                if path.len() == 0 {
                    None
                } else {
                    match lookup(dirs@, path[0]) {
                        Some(dir) => dir.disk_at(path.drop_first()),
                        None => None,
                    }
                }
            },
        }
    }

    /// The directory is in memory, and so is every directory below it.
    pub open spec fn in_memory(self) -> bool
        decreases self,
    {
        match self {
            Directory::Real(_) => false,
            Directory::Virtual { files: _, dirs } => forall|i: int|
                0 <= i < dirs@.len() ==> (#[trigger] dirs@[i]).1.in_memory(),
        }
    }

    /// In the directory and below it no two files, and no two sub-directories, of one directory
    /// bear the same name.
    pub open spec fn well_formed(self) -> bool
        decreases self,
    {
        match self {
            Directory::Real(_) => true,
            Directory::Virtual { files, dirs } => {
                &&& distinct(files@)
                &&& distinct(dirs@)
                &&& forall|i: int| 0 <= i < dirs@.len() ==> (#[trigger] dirs@[i]).1.well_formed()
            },
        }
    }
}

impl View for Directory {
    type V = DirectoryView;

    open spec fn view(&self) -> DirectoryView {
        match *self {
            Directory::Real(path) => DirectoryView::Real(path@),
            Directory::Virtual { files: _, dirs: _ } => DirectoryView::Virtual {
                files: Map::new(
                    |path: Seq<Seq<char>>| self.file_at(path) is Some,
                    |path: Seq<Seq<char>>| self.file_at(path)->0,
                ),
                dirs: Set::new(|path: Seq<Seq<char>>| self.has_dir(path)),
                on_disk: Map::new(
                    |path: Seq<Seq<char>>| self.disk_at(path) is Some,
                    |path: Seq<Seq<char>>| self.disk_at(path)->0,
                ),
            },
        }
    }
}

/// A module of its own: a file that no other file gave rise to.
pub open spec fn source_file(name: Seq<char>, content: Seq<char>) -> VirtualFileView {
    VirtualFileView {
        parent: None,
        name,
        content,
        code_mappings: Seq::empty(),
        kind: FileKind::Module,
        original_item_removed: false,
    }
}

/// Paths and contents, as characters.
pub open spec fn file_texts(files: Seq<(String, String)>) -> Seq<(Seq<char>, Seq<char>)> {
    files.map_values(|file: (String, String)| (file.0@, file.1@))
}

/// `path` without the `src/` that it starts with, if it does.
pub open spec fn stripped(path: Seq<char>) -> Seq<char> {
    if starts_with(path, "src/"@) {
        path.subrange("src/"@.len() as int, path.len() as int)
    } else {
        path
    }
}

/// The names that a path leads through. A `src/` at its start is no part of them.
pub open spec fn resolve(path: Seq<char>) -> Seq<Seq<char>> {
    names_of(stripped(path))
}

/// The content of the last file whose path leads to `target`.
pub open spec fn last_content(
    files: Seq<(Seq<char>, Seq<char>)>,
    target: Seq<Seq<char>>,
) -> Option<Seq<char>>
    decreases files.len(),
{
    if files.len() == 0 {
        None
    } else if resolve(files.last().0) == target {
        Some(files.last().1)
    } else {
        last_content(files.drop_last(), target)
    }
}

/// The directory `dir` is on the way to `path`.
pub open spec fn is_on_the_way(dir: Seq<Seq<char>>, path: Seq<Seq<char>>) -> bool {
    dir.len() < path.len() && path.take(dir.len() as int) =~= dir
}

/// Some file lies in the directory that the names of `dir` lead to, or below it.
pub open spec fn is_populated(
    files: Seq<(Seq<char>, Seq<char>)>,
    dir: Seq<Seq<char>>,
) -> bool {
    exists|i: int| 0 <= i < files.len() && is_on_the_way(dir, resolve(#[trigger] files[i].0))
}

/// The directory that a list of files makes up: each file stands where its path leads, and of two
/// files that lead to the same place the later one stays. There is no directory without a file
/// in it or below it, but the root.
pub open spec fn tree_of(files: Seq<(Seq<char>, Seq<char>)>) -> DirectoryView {
    DirectoryView::Virtual {
        files: Map::new(
            |path: Seq<Seq<char>>| last_content(files, path) is Some,
            |path: Seq<Seq<char>>| source_file(path.last(), last_content(files, path)->0),
        ),
        dirs: Set::new(|path: Seq<Seq<char>>| path.len() == 0 || is_populated(files, path)),
        on_disk: Map::empty(),
    }
}

/// The same files, each without the `src/` that its path starts with.
spec fn without_src(files: Seq<(Seq<char>, Seq<char>)>) -> Seq<(Seq<char>, Seq<char>)> {
    files.map_values(|file: (Seq<char>, Seq<char>)| (stripped(file.0), file.1))
}

/// `path` names a file in a sub-directory.
spec fn is_nested(path: Seq<char>) -> bool {
    position_of(path, '/') < path.len()
}

/// The first name of a path, up to its first `/`.
spec fn first_name(path: Seq<char>) -> Seq<char> {
    path.subrange(0, position_of(path, '/'))
}

/// What follows the first `/` of a path.
spec fn path_below(path: Seq<char>) -> Seq<char> {
    path.subrange(position_of(path, '/') + 1, path.len() as int)
}

/// The content of the last file whose path is made of the names of `target`.
spec fn content_at(files: Seq<(Seq<char>, Seq<char>)>, target: Seq<Seq<char>>) -> Option<Seq<char>>
    decreases files.len(),
{
    if files.len() == 0 {
        None
    } else if names_of(files.last().0) == target {
        Some(files.last().1)
    } else {
        content_at(files.drop_last(), target)
    }
}

/// Some path starts with the names of `dir` and goes on.
spec fn populates(files: Seq<(Seq<char>, Seq<char>)>, dir: Seq<Seq<char>>) -> bool {
    exists|i: int| 0 <= i < files.len() && is_on_the_way(dir, names_of(#[trigger] files[i].0))
}

/// The directory that a list of files makes up whose paths are taken as they are.
spec fn tree_at(files: Seq<(Seq<char>, Seq<char>)>) -> DirectoryView {
    DirectoryView::Virtual {
        files: Map::new(
            |path: Seq<Seq<char>>| content_at(files, path) is Some,
            |path: Seq<Seq<char>>| source_file(path.last(), content_at(files, path)->0),
        ),
        dirs: Set::new(|path: Seq<Seq<char>>| path.len() == 0 || populates(files, path)),
        on_disk: Map::empty(),
    }
}

/// The files of the sub-directory `name`, with their paths in it.
spec fn below(files: Seq<(Seq<char>, Seq<char>)>, name: Seq<char>) -> Seq<(Seq<char>, Seq<char>)>
    decreases files.len(),
{
    if files.len() == 0 {
        Seq::empty()
    } else {
        let rest = below(files.drop_last(), name);
        let last = files.last();
        if is_nested(last.0) && first_name(last.0) == name {
            rest.push((path_below(last.0), last.1))
        } else {
            rest
        }
    }
}

/// The length of the longest path.
spec fn longest(files: Seq<(Seq<char>, Seq<char>)>) -> nat
    decreases files.len(),
{
    if files.len() == 0 {
        0
    } else {
        let rest = longest(files.drop_last());
        if rest < files.last().0.len() {
            files.last().0.len()
        } else {
            rest
        }
    }
}

/// A path leads through at least one name; a nested one through its first name and then the rest.
proof fn lemma_names_of(path: Seq<char>)
    ensures
        names_of(path).len() > 0,
        is_nested(path) ==> names_of(path) == seq![first_name(path)] + names_of(path_below(path)),
        is_nested(path) ==> path_below(path).len() < path.len(),
        !is_nested(path) ==> names_of(path) == seq![path],
{
    lemma_position_of(path, '/');
}

/// Every path is at most as long as the longest.
proof fn lemma_longest(files: Seq<(Seq<char>, Seq<char>)>, i: int)
    requires
        0 <= i < files.len(),
    ensures
        files[i].0.len() <= longest(files),
    decreases files.len(),
{
    if i < files.len() - 1 {
        assert(files.drop_last()[i] == files[i]);
        lemma_longest(files.drop_last(), i);
    }
}

/// Paths in a sub-directory are shorter than the paths that led there.
proof fn lemma_longest_below(files: Seq<(Seq<char>, Seq<char>)>, name: Seq<char>)
    ensures
        below(files, name).len() > 0 ==> longest(below(files, name)) < longest(files),
    decreases files.len(),
{
    if files.len() > 0 {
        lemma_longest_below(files.drop_last(), name);
        let last = files.last();
        lemma_names_of(last.0);
        if is_nested(last.0) && first_name(last.0) == name {
            assert(below(files, name).drop_last() =~= below(files.drop_last(), name));
            if below(files.drop_last(), name).len() == 0 {
                assert(longest(below(files.drop_last(), name)) == 0);
            }
        }
    }
}

/// No file stands at the root itself.
proof fn lemma_last_content_root(files: Seq<(Seq<char>, Seq<char>)>)
    ensures
        content_at(files, Seq::empty()) is None,
    decreases files.len(),
{
    if files.len() > 0 {
        lemma_names_of(files.last().0);
        lemma_last_content_root(files.drop_last());
    }
}

/// What stands below a sub-directory is what its own files make up.
proof fn lemma_last_content_below(
    files: Seq<(Seq<char>, Seq<char>)>,
    name: Seq<char>,
    rest: Seq<Seq<char>>,
)
    requires
        rest.len() > 0,
    ensures
        content_at(files, seq![name] + rest) == content_at(below(files, name), rest),
    decreases files.len(),
{
    if files.len() > 0 {
        let last = files.last();
        lemma_last_content_below(files.drop_last(), name, rest);
        lemma_names_of(last.0);
        let target = seq![name] + rest;
        assert(target[0] == name);
        assert(target.drop_first() =~= rest);
        if is_nested(last.0) {
            assert(names_of(last.0)[0] == first_name(last.0));
            assert(names_of(last.0).drop_first() =~= names_of(path_below(last.0)));
            if first_name(last.0) == name {
                let sub = below(files, name);
                assert(sub.drop_last() =~= below(files.drop_last(), name));
                if names_of(path_below(last.0)) == rest {
                    assert(names_of(last.0) =~= target);
                }
            }
        }
    }
}

/// A sub-directory, or one below it, is populated if some file of it says so.
proof fn lemma_populated_below(
    files: Seq<(Seq<char>, Seq<char>)>,
    name: Seq<char>,
    rest: Seq<Seq<char>>,
)
    ensures
        populates(files, seq![name] + rest) <==> populates(below(files, name), rest),
        rest.len() == 0 ==> (populates(below(files, name), rest) <==> below(files, name).len()
            > 0),
    decreases files.len(),
{
    let dir = seq![name] + rest;
    let sub = below(files, name);
    assert(dir.drop_first() =~= rest);
    if rest.len() == 0 && sub.len() > 0 {
        lemma_names_of(sub[0].0);
        assert(is_on_the_way(rest, names_of(sub[0].0)));
    }
    if files.len() > 0 {
        let before = files.drop_last();
        let last = files.last();
        lemma_populated_below(before, name, rest);
        lemma_names_of(last.0);
        let hit = is_on_the_way(dir, names_of(last.0));
        assert(populates(files, dir) <==> populates(before, dir) || hit) by {
            if populates(before, dir) {
                let i = choose|i: int|
                    0 <= i < before.len() && is_on_the_way(dir, names_of(#[trigger] before[i].0));
                assert(files[i] == before[i]);
            }
            if hit {
                assert(files[files.len() - 1] == last);
            }
            if populates(files, dir) && !hit {
                let i = choose|i: int|
                    0 <= i < files.len() && is_on_the_way(dir, names_of(#[trigger] files[i].0));
                assert(before[i] == files[i]);
            }
        }
        if is_nested(last.0) {
            assert(names_of(last.0)[0] == first_name(last.0));
            assert(names_of(last.0).drop_first() =~= names_of(path_below(last.0)));
            let inner = names_of(path_below(last.0));
            let outer = names_of(last.0);
            if first_name(last.0) == name {
                assert(hit <==> is_on_the_way(rest, inner)) by {
                    if hit {
                        assert forall|k: int| 0 <= k < rest.len() implies #[trigger] inner[k]
                            == rest[k] by {
                            assert(outer.take(dir.len() as int)[k + 1] == dir[k + 1]);
                        }
                        assert(inner.take(rest.len() as int) =~= rest);
                    }
                    if is_on_the_way(rest, inner) {
                        assert forall|k: int| 0 <= k < dir.len() implies #[trigger] outer[k]
                            == dir[k] by {
                            if k > 0 {
                                assert(inner.take(rest.len() as int)[k - 1] == rest[k - 1]);
                            }
                        }
                        assert(outer.take(dir.len() as int) =~= dir);
                    }
                }
                let sub_before = below(before, name);
                assert(sub.drop_last() =~= sub_before);
                assert(populates(sub, rest) <==> populates(sub_before, rest)
                    || is_on_the_way(rest, inner)) by {
                    if populates(sub_before, rest) {
                        let i = choose|i: int|
                            0 <= i < sub_before.len() && is_on_the_way(
                                rest,
                                names_of(#[trigger] sub_before[i].0),
                            );
                        assert(sub[i] == sub_before[i]);
                    }
                    if is_on_the_way(rest, inner) {
                        assert(sub[sub.len() - 1].0 == path_below(last.0));
                    }
                    if populates(sub, rest) && !is_on_the_way(rest, inner) {
                        let i = choose|i: int|
                            0 <= i < sub.len() && is_on_the_way(rest, names_of(#[trigger] sub[i].0));
                        assert(sub_before[i] == sub[i]);
                    }
                }
            } else {
                if hit {
                    assert(outer.take(dir.len() as int)[0] == dir[0]);
                }
            }
        } else {
            assert(!hit);
        }
    }
}

/// The files of a directory are those of `files` that lie in it itself.
spec fn files_are(
    entries: Seq<(String, VirtualFile)>,
    files: Seq<(Seq<char>, Seq<char>)>,
) -> bool {
    forall|n: Seq<char>|
        match (#[trigger] lookup(entries, n), content_at(files, seq![n])) {
            (Some(file), Some(content)) => file@ == source_file(n, content),
            (None, None) => true,
            _ => false,
        }
}

/// The sub-directories of a directory are those that `files` populates, each with its files.
spec fn subdirs_are(
    entries: Seq<(String, Vec<(String, String)>)>,
    files: Seq<(Seq<char>, Seq<char>)>,
) -> bool {
    forall|n: Seq<char>|
        match #[trigger] lookup(entries, n) {
            Some(sub) => file_texts(sub@) == below(files, n) && below(files, n).len() > 0,
            None => below(files, n).len() == 0,
        }
}

/// What one more file does to the content of the places in a directory itself.
proof fn lemma_files_step(
    seen: Seq<(Seq<char>, Seq<char>)>,
    next: Seq<(Seq<char>, Seq<char>)>,
)
    requires
        next.len() > 0,
        next.drop_last() == seen,
    ensures
        forall|n: Seq<char>|
            #[trigger] content_at(next, seq![n]) == if !is_nested(next.last().0) && n == next.last().0 {
                Some(next.last().1)
            } else {
                content_at(seen, seq![n])
            },
{
    let last = next.last();
    lemma_names_of(last.0);
    assert forall|n: Seq<char>| #[trigger]
        content_at(next, seq![n]) == if !is_nested(last.0) && n == last.0 {
            Some(last.1)
        } else {
            content_at(seen, seq![n])
        } by {
        if is_nested(last.0) {
            lemma_names_of(path_below(last.0));
            assert(names_of(last.0).len() > 1);
        } else if n != last.0 {
            assert(seq![n][0] != seq![last.0][0]);
        }
    }
}

/// Moving an entry to the end with a new value changes what is found under its name, and nothing
/// else.
proof fn lemma_moved_to_end<T>(before: Seq<(String, T)>, i: int, after: Seq<(String, T)>)
    requires
        distinct(before),
        0 <= i < before.len(),
        after.len() == before.len(),
        after.last().0 == before[i].0,
        after.drop_last() == before.update(i, before.last()).drop_last(),
    ensures
        distinct(after),
        lookup(after, before[i].0@) == Some(after.last().1),
        forall|n: Seq<char>|
            n != before[i].0@ ==> #[trigger] lookup(after, n) == lookup(before, n),
{
    let last = before.len() - 1;
    assert forall|k: int| 0 <= k < last implies #[trigger] after[k] == (if k == i {
        before[last]
    } else {
        before[k]
    }) by {
        assert(after.drop_last()[k] == after[k]);
    }
    assert forall|a: int, b: int| 0 <= a < b < after.len() implies #[trigger] after[a].0@
        != #[trigger] after[b].0@ by {
        let x = if a == i { last } else { a };
        let y = if b == last { i } else if b == i { last } else { b };
        if x < y {
            assert(before[x].0@ != before[y].0@);
        } else {
            assert(before[y].0@ != before[x].0@);
        }
    }
    assert forall|n: Seq<char>| n != before[i].0@ implies #[trigger] lookup(after, n) == lookup(
        before,
        n,
    ) by {
        if lookup(before, n) is Some {
            let k = lemma_lookup_some(before, n);
            lemma_lookup_at(after, if k == last { i } else { k });
        } else {
            assert forall|a: int| 0 <= a < after.len() implies #[trigger] after[a].0@ != n by {
                let x = if a == last { i } else if a == i { last } else { a };
                lemma_lookup_at(before, x);
            }
            lemma_lookup_none(after, n);
        }
    }
}

/// What is reached in a directory, read off what it holds.
proof fn lemma_reached(dir: Directory, files: Seq<(Seq<char>, Seq<char>)>)
    requires
        dir@ == tree_at(files),
    ensures
        forall|path: Seq<Seq<char>>|
            #[trigger] dir.file_at(path) == match content_at(files, path) {
                Some(content) => Some(source_file(path.last(), content)),
                None => None,
            },
        forall|path: Seq<Seq<char>>| #[trigger]
            dir.has_dir(path) <==> path.len() == 0 || populates(files, path),
        forall|path: Seq<Seq<char>>| #[trigger] dir.disk_at(path) is None,
{
    assert forall|path: Seq<Seq<char>>| #[trigger]
        dir.file_at(path) == match content_at(files, path) {
            Some(content) => Some(source_file(path.last(), content)),
            None => None,
        } by {
        assert(dir@->files.dom().contains(path) == tree_at(files)->files.dom().contains(path));
        if dir.file_at(path) is Some {
            assert(dir@->files[path] == tree_at(files)->files[path]);
        }
    }
    assert forall|path: Seq<Seq<char>>| #[trigger]
        dir.has_dir(path) <==> path.len() == 0 || populates(files, path) by {
        assert(dir@->dirs.contains(path) == tree_at(files)->dirs.contains(path));
    }
    assert forall|path: Seq<Seq<char>>| #[trigger] dir.disk_at(path) is None by {
        assert(!dir@->on_disk.dom().contains(path));
    }
}

/// Files and sub-directories put together make up the directory of all of them.
proof fn lemma_built(
    root_files: Seq<(String, VirtualFile)>,
    subdirs: Seq<(String, Vec<(String, String)>)>,
    root_dirs: Seq<(String, Directory)>,
    all: Seq<(Seq<char>, Seq<char>)>,
    dir: Directory,
)
    requires
        distinct(root_files),
        distinct(subdirs),
        files_are(root_files, all),
        subdirs_are(subdirs, all),
        root_dirs.len() == subdirs.len(),
        forall|k: int|
            0 <= k < root_dirs.len() ==> (#[trigger] root_dirs[k]).0@ == subdirs[k].0@
                && root_dirs[k].1.well_formed() && root_dirs[k].1.in_memory() && root_dirs[k].1@
                == tree_at(file_texts(subdirs[k].1@)),
        dir matches Directory::Virtual { files, dirs } && files@ == root_files && dirs@
            == root_dirs,
    ensures
        dir.well_formed(),
        dir.in_memory(),
        dir@ == tree_at(all),
{
    assert forall|a: int, b: int| 0 <= a < b < root_dirs.len() implies #[trigger] root_dirs[a].0@
        != #[trigger] root_dirs[b].0@ by {
        assert(subdirs[a].0@ != subdirs[b].0@);
    }
    assert forall|n: Seq<char>| true implies match #[trigger] lookup(root_dirs, n) {
        Some(sub) => below(all, n).len() > 0 && sub@ == tree_at(below(all, n)),
        None => below(all, n).len() == 0,
    } by {
        if lookup(root_dirs, n) is Some {
            let k = lemma_lookup_some(root_dirs, n);
            lemma_lookup_at(subdirs, k);
            assert(lookup(subdirs, n) is Some);
        } else if lookup(subdirs, n) is Some {
            let k = lemma_lookup_some(subdirs, n);
            lemma_lookup_at(root_dirs, k);
        }
    }
    assert forall|path: Seq<Seq<char>>| #[trigger]
        dir.file_at(path) == match content_at(all, path) {
            Some(content) => Some(source_file(path.last(), content)),
            None => None,
        } by {
        if path.len() == 0 {
            assert(path =~= Seq::empty());
            lemma_last_content_root(all);
        } else if path.len() == 1 {
            assert(path =~= seq![path[0]]);
            assert(lookup(root_files, path[0]) is Some || lookup(root_files, path[0]) is None);
        } else {
            let rest = path.drop_first();
            assert(path =~= seq![path[0]] + rest);
            lemma_last_content_below(all, path[0], rest);
            match lookup(root_dirs, path[0]) {
                Some(sub) => {
                    lemma_reached(sub, below(all, path[0]));
                    assert(dir.file_at(path) == sub.file_at(rest));
                    assert(rest.last() == path.last());
                },
                None => {
                    assert(content_at(below(all, path[0]), rest) is None);
                },
            }
        }
    }
    assert forall|path: Seq<Seq<char>>| #[trigger]
        dir.has_dir(path) <==> path.len() == 0 || populates(all, path) by {
        if path.len() > 0 {
            let rest = path.drop_first();
            assert(path =~= seq![path[0]] + rest);
            lemma_populated_below(all, path[0], rest);
            match lookup(root_dirs, path[0]) {
                Some(sub) => {
                    lemma_reached(sub, below(all, path[0]));
                    assert(dir.has_dir(path) == sub.has_dir(rest));
                },
                None => {},
            }
        }
    }
    assert forall|path: Seq<Seq<char>>| #[trigger] dir.disk_at(path) is None by {
        if path.len() > 0 {
            match lookup(root_dirs, path[0]) {
                Some(sub) => {
                    lemma_reached(sub, below(all, path[0]));
                    assert(dir.disk_at(path) == sub.disk_at(path.drop_first()));
                },
                None => {},
            }
        }
    }
    assert(dir@->files =~= tree_at(all)->files);
    assert(dir@->dirs =~= tree_at(all)->dirs);
    assert(dir@->on_disk =~= tree_at(all)->on_disk);
}

/// Taking `src/` off every path first leads every file to the same place.
proof fn lemma_without_src(files: Seq<(Seq<char>, Seq<char>)>)
    ensures
        tree_at(without_src(files)) == tree_of(files),
{
    let plain = without_src(files);
    assert forall|target: Seq<Seq<char>>| #[trigger]
        content_at(plain, target) == last_content(files, target) by {
        lemma_content_without_src(files, target);
    }
    assert forall|dir: Seq<Seq<char>>| #[trigger]
        populates(plain, dir) == is_populated(files, dir) by {
        if populates(plain, dir) {
            let i = choose|i: int|
                0 <= i < plain.len() && is_on_the_way(dir, names_of(#[trigger] plain[i].0));
            assert(is_on_the_way(dir, resolve(files[i].0)));
        }
        if is_populated(files, dir) {
            let i = choose|i: int|
                0 <= i < files.len() && is_on_the_way(dir, resolve(#[trigger] files[i].0));
            assert(is_on_the_way(dir, names_of(plain[i].0)));
        }
    }
    assert(tree_at(plain)->files =~= tree_of(files)->files);
    assert(tree_at(plain)->dirs =~= tree_of(files)->dirs);
}

/// Taking `src/` off every path first leaves the same content at every place.
proof fn lemma_content_without_src(
    files: Seq<(Seq<char>, Seq<char>)>,
    target: Seq<Seq<char>>,
)
    ensures
        content_at(without_src(files), target) == last_content(files, target),
    decreases files.len(),
{
    if files.len() > 0 {
        assert(without_src(files).drop_last() =~= without_src(files.drop_last()));
        lemma_content_without_src(files.drop_last(), target);
    }
}

/// A source file of its own.
pub fn create_virtual_file(name: &str, content: &str) -> (file: VirtualFile)
    ensures
        file@ == source_file(name@, content@),
        file.name@ == name@,
        file.content@ == content@,
        file.parent is None,
        file.code_mappings@.len() == 0,
        file.kind == FileKind::Module,
        !file.original_item_removed,
{
    VirtualFile {
        parent: None,
        name: name.to_owned(),
        content: content.to_owned(),
        code_mappings: Vec::new(),
        kind: FileKind::Module,
        original_item_removed: false,
    }
}

/// Adds a file to the sub-directory `name`, which comes to be if it was not there.
fn add_below(
    subdirs: &mut Vec<(String, Vec<(String, String)>)>,
    name: &str,
    path: &str,
    content: &String,
)
    requires
        distinct(old(subdirs)@),
    ensures
        distinct(final(subdirs)@),
        forall|n: Seq<char>|
            n != name@ ==> #[trigger] lookup(final(subdirs)@, n) == lookup(old(subdirs)@, n),
        lookup(final(subdirs)@, name@) is Some,
        file_texts(lookup(final(subdirs)@, name@)->0@) == (match lookup(old(subdirs)@, name@) {
            Some(files) => file_texts(files@),
            None => Seq::empty(),
        }).push((path@, content@)),
{
    let ghost before = subdirs@;
    match position(subdirs, name) {
        Some(i) => {
            let (key, mut files) = subdirs.swap_remove(i);
            proof {
                lemma_lookup_at(before, i as int);
            }
            files.push((path.to_owned(), content.clone()));
            subdirs.push((key, files));
            proof {
                assert(subdirs@.drop_last() =~= before.update(i as int, before.last()).drop_last());
                lemma_moved_to_end(before, i as int, subdirs@);
                assert(file_texts(files@) =~= file_texts(before[i as int].1@).push(
                    (path@, content@),
                ));
            }
        },
        None => {
            let mut files: Vec<(String, String)> = Vec::new();
            files.push((path.to_owned(), content.clone()));
            set_entry(subdirs, name.to_owned(), files);
            assert(file_texts(files@) =~= Seq::empty().push((path@, content@)));
        },
    }
}

/// The directory that a list of files makes up whose paths are taken as they are.
fn build_tree(files: &Vec<(String, String)>) -> (dir: Directory)
    ensures
        dir.well_formed(),
        dir.in_memory(),
        dir@ == tree_at(file_texts(files@)),
    decreases longest(file_texts(files@)),
{
    let ghost all = file_texts(files@);
    let mut root_files: Vec<(String, VirtualFile)> = Vec::new();
    let mut subdirs: Vec<(String, Vec<(String, String)>)> = Vec::new();
    let mut i: usize = 0;
    while i < files.len()
        invariant
            all == file_texts(files@),
            i <= files.len(),
            distinct(root_files@),
            distinct(subdirs@),
            files_are(root_files@, all.take(i as int)),
            subdirs_are(subdirs@, all.take(i as int)),
        decreases files.len() - i,
    {
        let ghost seen = all.take(i as int);
        let ghost next = all.take(i + 1);
        let ghost subdirs_before = subdirs@;
        let path: &str = files[i].0.as_str();
        proof {
            assert(next.drop_last() =~= seen);
            assert(next.last() == all[i as int]);
            lemma_names_of(all[i as int].0);
        }
        match split_first(path, '/') {
            None => {
                set_entry(
                    &mut root_files,
                    path.to_owned(),
                    create_virtual_file(path, files[i].1.as_str()),
                );
            },
            Some((name, rest)) => {
                add_below(&mut subdirs, name, rest, &files[i].1);
            },
        }
        proof {
            lemma_files_step(seen, next);
            assert forall|n: Seq<char>| true implies match #[trigger] lookup(subdirs@, n) {
                Some(sub) => file_texts(sub@) == below(next, n) && below(next, n).len() > 0,
                None => below(next, n).len() == 0,
            } by {
                let known = lookup(subdirs_before, n);
                assert(known is None ==> below(seen, n) =~= Seq::empty());
            }
        }
        i = i + 1;
    }
    assert(all.take(i as int) =~= all);
    let mut root_dirs: Vec<(String, Directory)> = Vec::new();
    let mut j: usize = 0;
    while j < subdirs.len()
        invariant
            all == file_texts(files@),
            j <= subdirs.len(),
            distinct(subdirs@),
            subdirs_are(subdirs@, all),
            root_dirs.len() == j,
            forall|k: int|
                0 <= k < j ==> (#[trigger] root_dirs@[k]).0@ == subdirs@[k].0@
                    && root_dirs@[k].1.well_formed() && root_dirs@[k].1.in_memory()
                    && root_dirs@[k].1@ == tree_at(file_texts(subdirs@[k].1@)),
        decreases subdirs.len() - j,
    {
        proof {
            lemma_lookup_at(subdirs@, j as int);
            lemma_longest_below(all, subdirs@[j as int].0@);
        }
        let sub_dir = build_tree(&subdirs[j].1);
        root_dirs.push((subdirs[j].0.clone(), sub_dir));
        j = j + 1;
    }
    let dir = Directory::Virtual { files: root_files, dirs: root_dirs };
    proof {
        lemma_built(root_files@, subdirs@, root_dirs@, all, dir);
    }
    dir
}

/// The directory that a list of files makes up. Where a path starts with `src/`, it is the same
/// without it.
pub fn build_virtual_directory(files: &Vec<(String, String)>) -> (dir: Directory)
    ensures
        dir.well_formed(),
        dir.in_memory(),
        dir@ == tree_of(file_texts(files@)),
{
    let ghost all = file_texts(files@);
    let mut plain: Vec<(String, String)> = Vec::new();
    let mut i: usize = 0;
    while i < files.len()
        invariant
            all == file_texts(files@),
            i <= files.len(),
            plain.len() == i,
            forall|k: int|
                0 <= k < i ==> (#[trigger] plain@[k]).0@ == stripped(all[k].0) && plain@[k].1@
                    == all[k].1,
        decreases files.len() - i,
    {
        let path: &str = match strip_prefix(files[i].0.as_str(), "src/") {
            Some(rest) => rest,
            None => files[i].0.as_str(),
        };
        plain.push((path.to_owned(), files[i].1.clone()));
        i = i + 1;
    }
    proof {
        assert(file_texts(plain@) =~= without_src(all));
        lemma_without_src(all);
    }
    build_tree(&plain)
}

} // verus!
