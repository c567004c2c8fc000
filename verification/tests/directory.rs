use cairo_wasm_interface::directory::{
    build_virtual_directory, create_virtual_file, Directory, FileKind, VirtualFile,
};
use cairo_wasm_interface::embedded::{build_corelib_virtual_directory, EmbeddedDir};
use cairo_wasm_interface::entries::{position, set_entry};
use cairo_wasm_interface::text::{equal, followed_by, join, split_first, strip_prefix};

fn listed(files: &[(&str, &str)]) -> Vec<(String, String)> {
    files.iter().map(|(path, content)| (path.to_string(), content.to_string())).collect()
}

fn file<'a>(dir: &'a Directory, path: &[&str]) -> Option<&'a VirtualFile> {
    match dir {
        Directory::Real(_) => None,
        Directory::Virtual { files, dirs } => {
            if path.len() == 1 {
                files.iter().find(|(name, _)| name == path[0]).map(|(_, file)| file)
            } else {
                dirs.iter()
                    .find(|(name, _)| name == path[0])
                    .and_then(|(_, sub)| file(sub, &path[1..]))
            }
        }
    }
}

fn content(dir: &Directory, path: &[&str]) -> Option<String> {
    file(dir, path).map(|file| file.content.clone())
}

fn names(dir: &Directory) -> (Vec<String>, Vec<String>) {
    match dir {
        Directory::Real(_) => (Vec::new(), Vec::new()),
        Directory::Virtual { files, dirs } => {
            let mut file_names: Vec<String> = files.iter().map(|(name, _)| name.clone()).collect();
            let mut dir_names: Vec<String> = dirs.iter().map(|(name, _)| name.clone()).collect();
            file_names.sort();
            dir_names.sort();
            (file_names, dir_names)
        }
    }
}

fn sub<'a>(dir: &'a Directory, name: &str) -> &'a Directory {
    match dir {
        Directory::Virtual { dirs, .. } => {
            &dirs.iter().find(|(n, _)| n == name).expect("no such directory").1
        }
        Directory::Real(_) => panic!("a real directory"),
    }
}

#[test]
fn no_files_make_an_empty_directory() {
    let dir = build_virtual_directory(&Vec::new());
    assert_eq!(names(&dir), (Vec::new(), Vec::new()));
}

#[test]
fn files_stand_where_their_paths_lead() {
    let dir = build_virtual_directory(&listed(&[
        ("lib.cairo", "mod utils; mod contract;"),
        ("utils.cairo", "fn f() {}"),
        ("contract/lib.cairo", "mod inner;"),
        ("contract/deep/inner.cairo", "fn g() {}"),
    ]));
    assert_eq!(
        names(&dir),
        (vec!["lib.cairo".to_string(), "utils.cairo".to_string()], vec!["contract".to_string()])
    );
    assert_eq!(content(&dir, &["utils.cairo"]), Some("fn f() {}".to_string()));
    assert_eq!(content(&dir, &["contract", "lib.cairo"]), Some("mod inner;".to_string()));
    assert_eq!(content(&dir, &["contract", "deep", "inner.cairo"]), Some("fn g() {}".to_string()));
    assert_eq!(content(&dir, &["contract", "utils.cairo"]), None);
}

#[test]
fn src_prefix_is_stripped() {
    let plain = build_virtual_directory(&listed(&[("lib.cairo", "a"), ("x/y.cairo", "b")]));
    let moved = build_virtual_directory(&listed(&[("src/lib.cairo", "a"), ("src/x/y.cairo", "b")]));
    assert_eq!(names(&moved), names(&plain));
    assert_eq!(content(&moved, &["lib.cairo"]), Some("a".to_string()));
    assert_eq!(content(&moved, &["x", "y.cairo"]), Some("b".to_string()));
}

#[test]
fn src_prefix_is_stripped_only_in_front() {
    let dir = build_virtual_directory(&listed(&[
        ("src/src/a.cairo", "1"),
        ("pkg/src/b.cairo", "2"),
        ("srcs/c.cairo", "3"),
        ("src", "4"),
    ]));
    assert_eq!(content(&dir, &["src", "a.cairo"]), Some("1".to_string()));
    assert_eq!(content(&dir, &["pkg", "src", "b.cairo"]), Some("2".to_string()));
    assert_eq!(names(sub(&dir, "pkg")), (Vec::new(), vec!["src".to_string()]));
    assert_eq!(content(&dir, &["srcs", "c.cairo"]), Some("3".to_string()));
    assert_eq!(content(&dir, &["src"]), Some("4".to_string()));
}

#[test]
fn src_below_a_directory_is_a_directory_of_its_own() {
    let dir = build_virtual_directory(&listed(&[("a/src/b", "1"), ("a/b", "2"), ("src/a/src/c", "3")]));
    assert_eq!(content(&dir, &["a", "src", "b"]), Some("1".to_string()));
    assert_eq!(content(&dir, &["a", "b"]), Some("2".to_string()));
    assert_eq!(content(&dir, &["a", "src", "c"]), Some("3".to_string()));
}

#[test]
fn every_directory_is_in_memory() {
    fn in_memory(dir: &Directory) -> bool {
        match dir {
            Directory::Real(_) => false,
            Directory::Virtual { dirs, .. } => dirs.iter().all(|(_, sub)| in_memory(sub)),
        }
    }
    assert!(in_memory(&build_virtual_directory(&listed(&[("a/b/c", "1"), ("d", "2")]))));
    let embedded = EmbeddedDir {
        files: vec![],
        dirs: vec![("d".to_string(), EmbeddedDir { files: vec![], dirs: vec![] })],
    };
    assert!(in_memory(&build_corelib_virtual_directory(&embedded)));
}

#[test]
fn files_and_directories_of_one_name_are_kept_at_every_depth() {
    let dir = build_virtual_directory(&listed(&[("a", "1"), ("a/b", "2"), ("a/b/c", "3")]));
    assert_eq!(names(&dir), (vec!["a".to_string()], vec!["a".to_string()]));
    assert_eq!(names(sub(&dir, "a")), (vec!["b".to_string()], vec!["b".to_string()]));
    assert_eq!(names(sub(sub(&dir, "a"), "b")), (vec!["c".to_string()], Vec::new()));
    assert_eq!(content(&dir, &["a", "b", "c"]), Some("3".to_string()));
}

#[test]
fn later_file_stays() {
    let dir = build_virtual_directory(&listed(&[("a.cairo", "old"), ("src/a.cairo", "new")]));
    assert_eq!(names(&dir).0, vec!["a.cairo".to_string()]);
    assert_eq!(content(&dir, &["a.cairo"]), Some("new".to_string()));
    let nested = build_virtual_directory(&listed(&[("d/a.cairo", "old"), ("src/d/a.cairo", "new")]));
    assert_eq!(content(&nested, &["d", "a.cairo"]), Some("new".to_string()));
}

#[test]
fn order_of_files_is_irrelevant() {
    let forth = build_virtual_directory(&listed(&[("a", "1"), ("b/c", "2"), ("b/d", "3")]));
    let back = build_virtual_directory(&listed(&[("b/d", "3"), ("b/c", "2"), ("a", "1")]));
    assert_eq!(names(&forth), names(&back));
    assert_eq!(names(sub(&forth, "b")), names(sub(&back, "b")));
    assert_eq!(content(&forth, &["b", "c"]), content(&back, &["b", "c"]));
    assert_eq!(content(&back, &["b", "d"]), Some("3".to_string()));
}

#[test]
fn adding_a_file_changes_its_own_place_alone() {
    let before = [("lib.cairo", "1"), ("d/a.cairo", "2")];
    let dir = build_virtual_directory(&listed(&before));
    let mut longer = listed(&before);
    longer.push(("src/d/a.cairo".to_string(), "3".to_string()));
    let after = build_virtual_directory(&longer);
    assert_eq!(names(&after), names(&dir));
    assert_eq!(content(&after, &["lib.cairo"]), content(&dir, &["lib.cairo"]));
    assert_eq!(content(&dir, &["d", "a.cairo"]), Some("2".to_string()));
    assert_eq!(content(&after, &["d", "a.cairo"]), Some("3".to_string()));
}

#[test]
fn a_name_can_be_that_of_a_file_and_of_a_directory() {
    let dir = build_virtual_directory(&listed(&[("a", "file"), ("a/b", "below")]));
    assert_eq!(content(&dir, &["a"]), Some("file".to_string()));
    assert_eq!(content(&dir, &["a", "b"]), Some("below".to_string()));
}

#[test]
fn empty_names_are_kept() {
    let dir = build_virtual_directory(&listed(&[("", "root"), ("/a", "1"), ("b/", "2"), ("src/", "3")]));
    assert_eq!(content(&dir, &[""]), Some("3".to_string()));
    assert_eq!(content(&dir, &["", "a"]), Some("1".to_string()));
    assert_eq!(content(&dir, &["b", ""]), Some("2".to_string()));
}

#[test]
fn paths_beyond_ascii() {
    let dir = build_virtual_directory(&listed(&[("src/größe/π.cairo", "ß")]));
    assert_eq!(content(&dir, &["größe", "π.cairo"]), Some("ß".to_string()));
}

#[test]
fn source_files_are_modules_of_their_own() {
    let file = create_virtual_file("lib.cairo", "fn main() {}");
    assert_eq!(file.name, "lib.cairo");
    assert_eq!(file.content, "fn main() {}");
    assert!(file.parent.is_none());
    assert!(file.code_mappings.is_empty());
    assert_eq!(file.kind, FileKind::Module);
    assert!(!file.original_item_removed);
}

#[test]
fn embedded_files_are_decoded() {
    let embedded = EmbeddedDir {
        files: vec![("lib.cairo".to_string(), "mod π;".as_bytes().to_vec())],
        dirs: vec![(
            "math".to_string(),
            EmbeddedDir {
                files: vec![("add.cairo".to_string(), b"fn add() {}".to_vec())],
                dirs: vec![("empty".to_string(), EmbeddedDir { files: vec![], dirs: vec![] })],
            },
        )],
    };
    assert!(embedded.holds_text());
    let dir = build_corelib_virtual_directory(&embedded);
    assert_eq!(content(&dir, &["lib.cairo"]), Some("mod π;".to_string()));
    assert_eq!(content(&dir, &["math", "add.cairo"]), Some("fn add() {}".to_string()));
    assert_eq!(file(&dir, &["math", "add.cairo"]).unwrap().name, "add.cairo");
    assert_eq!(names(sub(&dir, "math")).1, vec!["empty".to_string()]);
}

#[test]
fn bytes_that_are_no_text_are_told_apart() {
    let bad = EmbeddedDir { files: vec![("x".to_string(), vec![0xff, 0xfe])], dirs: vec![] };
    assert!(!bad.holds_text());
    let below = EmbeddedDir { files: vec![], dirs: vec![("d".to_string(), bad)] };
    assert!(!below.holds_text());
    assert!(EmbeddedDir { files: vec![], dirs: vec![] }.holds_text());
}

#[test]
fn entries_are_set_and_found() {
    let mut entries: Vec<(String, u8)> = Vec::new();
    set_entry(&mut entries, "a".to_string(), 1);
    set_entry(&mut entries, "b".to_string(), 2);
    set_entry(&mut entries, "a".to_string(), 3);
    assert_eq!(entries.len(), 2);
    assert_eq!(position(&entries, "a").map(|i| entries[i].1), Some(3));
    assert_eq!(position(&entries, "b").map(|i| entries[i].1), Some(2));
    assert_eq!(position(&entries, "c"), None);
}

#[test]
fn small_string_functions() {
    assert!(equal("abc", "abc"));
    assert!(!equal("abc", "abd"));
    assert_eq!(strip_prefix("src/a", "src/"), Some("a"));
    assert_eq!(strip_prefix("src", "src/"), None);
    assert_eq!(strip_prefix("lib", "src/"), None);
    assert_eq!(split_first("a/b/c", '/'), Some(("a", "b/c")));
    assert_eq!(split_first("abc", '/'), None);
    assert_eq!(join(&vec!["a".to_string(), "b".to_string(), "c".to_string()], ", "), "a, b, c");
    assert_eq!(join(&Vec::new(), ", "), "");
    assert_eq!(followed_by("a", "b"), "ab");
}
