//! The sources of the core library, as they are embedded in a program.
use vstd::prelude::*;
use vstd::utf8::{decode_utf8, valid_utf8};

use crate::directory::{
    create_virtual_file, source_file, Directory, DirectoryView, VirtualFile,
};
use crate::entries::{distinct, lemma_lookup_at, lemma_lookup_some, lookup, set_entry};

verus! {

/// An embedded directory: the bytes of its files and its sub-directories, by their names.
#[derive(Debug)]
pub struct EmbeddedDir {
    pub files: Vec<(String, Vec<u8>)>,
    pub dirs: Vec<(String, EmbeddedDir)>,
}

impl EmbeddedDir {
    /// The bytes of the file that the names of `path` lead to.
    pub open spec fn bytes_at(self, path: Seq<Seq<char>>) -> Option<Seq<u8>>
        decreases path.len(),
    {
        if path.len() == 0 {
            None
        } else if path.len() == 1 {
            match lookup(self.files@, path[0]) {
                Some(bytes) => Some(bytes@),
                None => None,
            }
        } else {
            match lookup(self.dirs@, path[0]) {
                Some(dir) => dir.bytes_at(path.drop_first()),
                None => None,
            }
        }
    }

    /// The names of `path` lead to a directory.
    pub open spec fn has_dir(self, path: Seq<Seq<char>>) -> bool
        decreases path.len(),
    {
        if path.len() == 0 {
            true
        } else {
            match lookup(self.dirs@, path[0]) {
                Some(dir) => dir.has_dir(path.drop_first()),
                None => false,
            }
        }
    }

    /// Every file, here and below, is UTF-8 text.
    pub open spec fn is_text(self) -> bool
        decreases self,
    {
        &&& forall|i: int| 0 <= i < self.files@.len() ==> valid_utf8((#[trigger] self.files@[i]).1@)
        &&& forall|i: int| 0 <= i < self.dirs@.len() ==> (#[trigger] self.dirs@[i]).1.is_text()
    }

    /// The embedded files as source files, where they stand.
    pub open spec fn as_directory(self) -> DirectoryView {
        DirectoryView::Virtual {
            files: Map::new(
                |path: Seq<Seq<char>>| self.bytes_at(path) is Some,
                |path: Seq<Seq<char>>|
                    source_file(path.last(), decode_utf8(self.bytes_at(path)->0)),
            ),
            dirs: Set::new(|path: Seq<Seq<char>>| self.has_dir(path)),
            on_disk: Map::empty(),
        }
    }
}

/// `std::str::from_utf8`: the text that bytes in UTF-8 stand for, and nothing for bytes that are no
/// UTF-8 text.
#[verifier::external_body]
fn text_of_utf8(bytes: &Vec<u8>) -> (text: Option<String>)
    ensures
        text is Some <==> valid_utf8(bytes@),
        text matches Some(text) ==> text@ == decode_utf8(bytes@),
{
    std::str::from_utf8(bytes).ok().map(|text| text.to_owned())
}

impl EmbeddedDir {
    /// Whether every file, here and below, is UTF-8 text.
    pub fn holds_text(&self) -> (holds: bool)
        ensures
            holds == self.is_text(),
        decreases self,
    {
        let mut i: usize = 0;
        while i < self.files.len()
            invariant
                i <= self.files.len(),
                forall|k: int| 0 <= k < i ==> valid_utf8((#[trigger] self.files@[k]).1@),
            decreases self.files.len() - i,
        {
            if text_of_utf8(&self.files[i].1).is_none() {
                return false;
            }
            i = i + 1;
        }
        let mut j: usize = 0;
        while j < self.dirs.len()
            invariant
                j <= self.dirs.len(),
                forall|k: int| 0 <= k < j ==> (#[trigger] self.dirs@[k]).1.is_text(),
            decreases self.dirs.len() - j,
        {
            if !self.dirs[j].1.holds_text() {
                return false;
            }
            j = j + 1;
        }
        true
    }
}

/// What is reached in a directory that holds what an embedded one does.
proof fn lemma_reached(dir: Directory, embedded: EmbeddedDir)
    requires
        dir@ == embedded.as_directory(),
    ensures
        forall|path: Seq<Seq<char>>|
            #[trigger] dir.file_at(path) == match embedded.bytes_at(path) {
                Some(bytes) => Some(source_file(path.last(), decode_utf8(bytes))),
                None => None,
            },
        forall|path: Seq<Seq<char>>| #[trigger] dir.has_dir(path) <==> embedded.has_dir(path),
        forall|path: Seq<Seq<char>>| #[trigger] dir.disk_at(path) is None,
{
    let expected = embedded.as_directory();
    assert forall|path: Seq<Seq<char>>| #[trigger]
        dir.file_at(path) == match embedded.bytes_at(path) {
            Some(bytes) => Some(source_file(path.last(), decode_utf8(bytes))),
            None => None,
        } by {
        assert(dir@->files.dom().contains(path) == expected->files.dom().contains(path));
        if dir.file_at(path) is Some {
            assert(dir@->files[path] == expected->files[path]);
        }
    }
    assert forall|path: Seq<Seq<char>>| #[trigger]
        dir.has_dir(path) <==> embedded.has_dir(path) by {
        assert(dir@->dirs.contains(path) == expected->dirs.contains(path));
    }
    assert forall|path: Seq<Seq<char>>| #[trigger] dir.disk_at(path) is None by {
        assert(!dir@->on_disk.dom().contains(path));
    }
}

/// The directory in memory that holds the files of an embedded one.
pub fn build_corelib_virtual_directory(embedded: &EmbeddedDir) -> (dir: Directory)
    requires
        embedded.is_text(),
    ensures
        dir.well_formed(),
        dir.in_memory(),
        dir@ == embedded.as_directory(),
    decreases embedded,
{
    let mut files: Vec<(String, VirtualFile)> = Vec::new();
    let mut i: usize = 0;
    while i < embedded.files.len()
        invariant
            embedded.is_text(),
            i <= embedded.files.len(),
            distinct(files@),
            forall|n: Seq<char>|
                match (#[trigger] lookup(files@, n), lookup(embedded.files@.take(i as int), n)) {
                    (Some(file), Some(bytes)) => file@ == source_file(n, decode_utf8(bytes@)),
                    (None, None) => true,
                    _ => false,
                },
        decreases embedded.files.len() - i,
    {
        let name: &str = embedded.files[i].0.as_str();
        let content = text_of_utf8(&embedded.files[i].1).unwrap();
        let file = create_virtual_file(name, content.as_str());
        set_entry(&mut files, name.to_owned(), file);
        assert(embedded.files@.take(i + 1).drop_last() =~= embedded.files@.take(i as int));
        i = i + 1;
    }
    let mut dirs: Vec<(String, Directory)> = Vec::new();
    let mut j: usize = 0;
    while j < embedded.dirs.len()
        invariant
            embedded.is_text(),
            j <= embedded.dirs.len(),
            distinct(dirs@),
            forall|k: int|
                0 <= k < dirs@.len() ==> (#[trigger] dirs@[k]).1.well_formed()
                    && dirs@[k].1.in_memory(),
            forall|n: Seq<char>|
                match (#[trigger] lookup(dirs@, n), lookup(embedded.dirs@.take(j as int), n)) {
                    (Some(sub), Some(inner)) => sub@ == inner.as_directory(),
                    (None, None) => true,
                    _ => false,
                },
        decreases embedded.dirs.len() - j,
    {
        let ghost before = dirs@;
        let sub = build_corelib_virtual_directory(&embedded.dirs[j].1);
        set_entry(&mut dirs, embedded.dirs[j].0.clone(), sub);
        proof {
            assert(embedded.dirs@.take(j + 1).drop_last() =~= embedded.dirs@.take(j as int));
            assert forall|k: int| 0 <= k < dirs@.len() implies (
            #[trigger] dirs@[k]).1.well_formed() && dirs@[k].1.in_memory() by {
                lemma_lookup_at(dirs@, k);
                if dirs@[k].0@ != embedded.dirs@[j as int].0@ {
                    let m = lemma_lookup_some(before, dirs@[k].0@);
                    assert(before[m].1.well_formed());
                }
            }
        }
        j = j + 1;
    }
    let dir = Directory::Virtual { files, dirs };
    proof {
        assert(embedded.files@.take(i as int) =~= embedded.files@);
        assert(embedded.dirs@.take(j as int) =~= embedded.dirs@);
        assert forall|path: Seq<Seq<char>>| #[trigger]
            dir.file_at(path) == match embedded.bytes_at(path) {
                Some(bytes) => Some(source_file(path.last(), decode_utf8(bytes))),
                None => None,
            } by {
            if path.len() == 1 {
                assert(lookup(files@, path[0]) is Some || lookup(files@, path[0]) is None);
            } else if path.len() > 1 {
                let rest = path.drop_first();
                assert(rest.last() == path.last());
                match (lookup(dirs@, path[0]), lookup(embedded.dirs@, path[0])) {
                    (Some(sub), Some(inner)) => {
                        lemma_reached(sub, inner);
                        assert(dir.file_at(path) == sub.file_at(rest));
                        assert(embedded.bytes_at(path) == inner.bytes_at(rest));
                    },
                    _ => {},
                }
            }
        }
        assert forall|path: Seq<Seq<char>>| #[trigger]
            dir.has_dir(path) <==> embedded.has_dir(path) by {
            if path.len() > 0 {
                let rest = path.drop_first();
                match (lookup(dirs@, path[0]), lookup(embedded.dirs@, path[0])) {
                    (Some(sub), Some(inner)) => {
                        lemma_reached(sub, inner);
                        assert(dir.has_dir(path) == sub.has_dir(rest));
                        assert(embedded.has_dir(path) == inner.has_dir(rest));
                    },
                    _ => {},
                }
            }
        }
        assert forall|path: Seq<Seq<char>>| #[trigger] dir.disk_at(path) is None by {
            if path.len() > 0 {
                match (lookup(dirs@, path[0]), lookup(embedded.dirs@, path[0])) {
                    (Some(sub), Some(inner)) => {
                        lemma_reached(sub, inner);
                        assert(dir.disk_at(path) == sub.disk_at(path.drop_first()));
                    },
                    _ => {},
                }
            }
        }
        assert(dir@->files =~= embedded.as_directory()->files);
        assert(dir@->dirs =~= embedded.as_directory()->dirs);
        assert(dir@->on_disk =~= embedded.as_directory()->on_disk);
    }
    dir
}

} // verus!
