use cairo_wasm_interface::config::{CrateConfiguration, ExperimentalFeaturesConfig};
use cairo_wasm_interface::database::{init_corelib, CrateInput, PluginSuite, RootDatabase};
use cairo_wasm_interface::directory::Directory;
use cairo_wasm_interface::edition::{parse_edition, Edition};
use cairo_wasm_interface::embedded::EmbeddedDir;
use cairo_wasm_interface::path::{file_in_directory, normalise, split_names};
use cairo_wasm_interface::project::{
    setup_project_in, setup_project_with_input_string, setup_single_file_project_in,
    setup_single_file_project_with_input_string, setup_virtual_project,
    setup_virtual_project_with_deps, DependencyInput,
};

fn corelib() -> EmbeddedDir {
    EmbeddedDir {
        files: vec![("lib.cairo".to_string(), b"mod array;".to_vec())],
        dirs: vec![],
    }
}

fn listed(files: &[(&str, &str)]) -> Vec<(String, String)> {
    files.iter().map(|(path, content)| (path.to_string(), content.to_string())).collect()
}

fn config<'a>(db: &'a RootDatabase, name: &str) -> Option<&'a CrateConfiguration> {
    db.crate_configs.iter().find(|(n, _)| n == name).map(|(_, config)| config)
}

fn dependency_names(config: &CrateConfiguration) -> Vec<String> {
    let mut names: Vec<String> =
        config.settings.dependencies.iter().map(|(name, _)| name.clone()).collect();
    names.sort();
    names
}

fn root_content(config: &CrateConfiguration, name: &str) -> Option<String> {
    match &config.root {
        Directory::Real(_) => None,
        Directory::Virtual { files, .. } => {
            files.iter().find(|(n, _)| n == name).map(|(_, file)| file.content.clone())
        }
    }
}

fn root_path(config: &CrateConfiguration) -> Option<String> {
    match &config.root {
        Directory::Real(path) => Some(path.clone()),
        Directory::Virtual { .. } => None,
    }
}

fn crate_names(crates: &[CrateInput]) -> Vec<String> {
    crates.iter().map(|input| input.name.clone()).collect()
}

fn dependency(files: &[(&str, &str)], edition: Option<&str>, names: &[&str]) -> DependencyInput {
    DependencyInput {
        files: listed(files),
        edition: edition.map(|e| e.to_string()),
        dependencies: names.iter().map(|n| n.to_string()).collect(),
    }
}

#[test]
fn editions_are_parsed() {
    assert_eq!(parse_edition("2023_01"), Edition::V2023_01);
    assert_eq!(parse_edition("2023_10"), Edition::V2023_10);
    assert_eq!(parse_edition("2023_11"), Edition::V2023_11);
    assert_eq!(parse_edition("2024_07"), Edition::V2024_07);
    assert_eq!(parse_edition("2025_12"), Edition::V2025_12);
}

#[test]
fn unknown_editions_are_the_default_one() {
    assert_eq!(parse_edition(""), Edition::V2023_01);
    assert_eq!(parse_edition("2024"), Edition::V2023_01);
    assert_eq!(parse_edition("2024_07 "), Edition::default());
    assert_eq!(Edition::default(), Edition::V2023_01);
}

#[test]
fn core_library_is_registered() {
    let mut db = RootDatabase::new();
    init_corelib(&mut db, &corelib());
    let core = config(&db, "core").unwrap();
    assert_eq!(root_content(core, "lib.cairo"), Some("mod array;".to_string()));
    assert_eq!(core.settings.edition, Edition::V2025_12);
    let version = core.settings.version.as_ref().unwrap();
    assert_eq!((version.major, version.minor, version.patch), (2, 16, 1));
    assert_eq!(version.pre, "");
    assert_eq!(version.build, "");
    assert!(core.settings.name.is_none());
    assert!(core.settings.cfg_set.is_none());
    assert!(core.settings.dependencies.is_empty());
    assert!(core.cache_file.is_none());
    assert_eq!(
        core.settings.experimental_features,
        ExperimentalFeaturesConfig {
            negative_impls: true,
            associated_item_constraints: true,
            coupons: true,
            user_defined_inline_macros: true,
            repr_ptrs: true,
        }
    );
}

#[test]
fn database_is_described_step_by_step() {
    let mut db = RootDatabase::new();
    assert!(db.auto_withdraw_gas);
    assert!(db.cfg_set.is_none());
    db.skip_auto_withdraw_gas();
    db.with_default_plugin_suite(PluginSuite::Test);
    db.with_default_plugin_suite(PluginSuite::Starknet);
    assert!(!db.auto_withdraw_gas);
    assert_eq!(db.plugin_suites, vec![PluginSuite::Test, PluginSuite::Starknet]);
    db.override_file_content("d/lib.cairo", "1".to_string());
    db.override_file_content("./d/x/..//lib.cairo", "2".to_string());
    assert_eq!(db.file_overrides, vec![("d/lib.cairo".to_string(), "2".to_string())]);
}

#[test]
fn virtual_project_is_registered() {
    let mut db = RootDatabase::new();
    let crates = setup_virtual_project(&mut db, "hello", &listed(&[("src/lib.cairo", "mod a;")]));
    assert_eq!(crate_names(&crates), vec!["hello".to_string()]);
    assert!(crates[0].discriminator.is_none());
    let hello = config(&db, "hello").unwrap();
    assert_eq!(root_content(hello, "lib.cairo"), Some("mod a;".to_string()));
    assert_eq!(hello.settings.edition, Edition::V2023_01);
    assert!(hello.settings.version.is_none());
    assert!(hello.settings.dependencies.is_empty());
    assert_eq!(hello.settings.experimental_features, ExperimentalFeaturesConfig::default());
}

#[test]
fn registering_a_project_again_replaces_it() {
    let mut db = RootDatabase::new();
    setup_virtual_project(&mut db, "p", &listed(&[("lib.cairo", "old"), ("a.cairo", "x")]));
    setup_virtual_project(&mut db, "p", &listed(&[("lib.cairo", "new")]));
    assert_eq!(db.crate_configs.len(), 1);
    let p = config(&db, "p").unwrap();
    assert_eq!(root_content(p, "lib.cairo"), Some("new".to_string()));
    assert_eq!(root_content(p, "a.cairo"), None);
}

#[test]
fn dependencies_are_registered() {
    let mut db = RootDatabase::new();
    init_corelib(&mut db, &corelib());
    let dependencies = vec![
        ("token".to_string(), dependency(&[("lib.cairo", "mod erc20;")], Some("2024_07"), &["access", "access"])),
        ("access".to_string(), dependency(&[("src/lib.cairo", "mod roles;")], Some("2023_11"), &[])),
        ("plain".to_string(), dependency(&[("lib.cairo", "")], None, &["missing"])),
    ];
    let crates = setup_virtual_project_with_deps(
        &mut db,
        "app",
        &listed(&[("lib.cairo", "use token;")]),
        &dependencies,
    );
    assert_eq!(crate_names(&crates), vec!["app".to_string()]);
    assert_eq!(db.crate_configs.len(), 5);

    let token = config(&db, "token").unwrap();
    assert_eq!(root_content(token, "lib.cairo"), Some("mod erc20;".to_string()));
    assert_eq!(token.settings.edition, Edition::V2024_07);
    assert_eq!(dependency_names(token), vec!["access".to_string()]);
    assert!(token.settings.dependencies[0].1.discriminator.is_none());

    let access = config(&db, "access").unwrap();
    assert_eq!(root_content(access, "lib.cairo"), Some("mod roles;".to_string()));
    assert_eq!(access.settings.edition, Edition::V2023_11);
    assert!(access.settings.dependencies.is_empty());

    let plain = config(&db, "plain").unwrap();
    assert_eq!(plain.settings.edition, Edition::default());
    assert_eq!(dependency_names(plain), vec!["missing".to_string()]);

    let app = config(&db, "app").unwrap();
    assert_eq!(root_content(app, "lib.cairo"), Some("use token;".to_string()));
    assert_eq!(app.settings.edition, Edition::V2024_07);
    assert_eq!(
        dependency_names(app),
        vec!["access".to_string(), "plain".to_string(), "token".to_string()]
    );

    let core = config(&db, "core").unwrap();
    assert_eq!(root_content(core, "lib.cairo"), Some("mod array;".to_string()));
}

#[test]
fn order_of_dependencies_is_irrelevant() {
    let one = || ("one".to_string(), dependency(&[("lib.cairo", "1")], None, &["two"]));
    let two = || ("two".to_string(), dependency(&[("lib.cairo", "2")], Some("2025_12"), &[]));
    let mut forth = RootDatabase::new();
    setup_virtual_project_with_deps(&mut forth, "p", &Vec::new(), &vec![one(), two()]);
    let mut back = RootDatabase::new();
    setup_virtual_project_with_deps(&mut back, "p", &Vec::new(), &vec![two(), one()]);
    for name in ["one", "two", "p"] {
        let a = config(&forth, name).unwrap();
        let b = config(&back, name).unwrap();
        assert_eq!(a.settings.edition, b.settings.edition);
        assert_eq!(dependency_names(a), dependency_names(b));
        assert_eq!(root_content(a, "lib.cairo"), root_content(b, "lib.cairo"));
    }
}

#[test]
fn project_takes_the_name_of_a_dependency() {
    let mut db = RootDatabase::new();
    let dependencies = vec![("p".to_string(), dependency(&[("lib.cairo", "dep")], None, &[]))];
    setup_virtual_project_with_deps(&mut db, "p", &listed(&[("lib.cairo", "main")]), &dependencies);
    let p = config(&db, "p").unwrap();
    assert_eq!(root_content(p, "lib.cairo"), Some("main".to_string()));
    assert_eq!(dependency_names(p), vec!["p".to_string()]);
}

#[test]
fn single_file_project_lies_beside_its_file() {
    let mut db = RootDatabase::new();
    let main =
        setup_single_file_project_with_input_string(&mut db, "work/demo/main.cairo", "fn main() {}")
            .unwrap();
    assert_eq!(main.name, "astro");
    let astro = config(&db, "astro").unwrap();
    assert_eq!(root_path(astro), Some("work/demo".to_string()));
    assert_eq!(astro.settings.edition, Edition::V2023_01);
    assert_eq!(
        db.file_overrides,
        vec![("work/demo/lib.cairo".to_string(), "fn main() {}".to_string())]
    );
}

#[test]
fn single_file_project_without_a_directory() {
    let mut db = RootDatabase::new();
    let crates = setup_project_with_input_string(&mut db, "astro.cairo", "x").unwrap();
    assert_eq!(crate_names(&crates), vec!["astro".to_string()]);
    assert_eq!(root_path(config(&db, "astro").unwrap()), Some(String::new()));
    assert_eq!(db.file_overrides[0].0, "lib.cairo");
}

#[test]
fn single_file_project_without_a_parent_is_in_the_current_directory() {
    let mut db = RootDatabase::new();
    let crates = setup_project_with_input_string(&mut db, "", "x").unwrap();
    assert_eq!(crates.len(), 1);
    assert_eq!(root_path(config(&db, "astro").unwrap()), Some(".".to_string()));
    assert_eq!(db.file_overrides[0].0, "lib.cairo");
}

#[test]
fn single_file_project_in_the_root() {
    let mut db = RootDatabase::new();
    setup_single_file_project_with_input_string(&mut db, "/c.cairo", "x").unwrap();
    assert_eq!(root_path(config(&db, "astro").unwrap()), Some("/".to_string()));
    assert_eq!(db.file_overrides[0].0, "/lib.cairo");
    let mut bare = RootDatabase::new();
    setup_single_file_project_with_input_string(&mut bare, "/", "x").unwrap();
    assert_eq!(root_path(config(&bare, "astro").unwrap()), Some(".".to_string()));
}

#[test]
fn parents_of_common_paths() {
    for (path, parent) in [
        ("./c.cairo", "."),
        ("../c.cairo", ".."),
        ("v1./c.cairo", "v1."),
        ("a/../c.cairo", "a/.."),
        ("./a/c.cairo", "./a"),
        ("a/b/", "a"),
        ("a/b//", "a"),
        ("/a/", "/"),
        ("a/..", "a"),
        ("..", ""),
        (".", ""),
        ("./", ""),
    ] {
        let mut db = RootDatabase::new();
        setup_single_file_project_with_input_string(&mut db, path, "x").unwrap();
        assert_eq!(root_path(config(&db, "astro").unwrap()), Some(parent.to_string()), "{path}");
    }
}

#[test]
fn latest_text_is_put_in_place_last() {
    let mut db = RootDatabase::new();
    setup_single_file_project_in(&mut db, Some("a".to_string()), "1");
    setup_single_file_project_in(&mut db, Some("b".to_string()), "2");
    setup_single_file_project_in(&mut db, Some("a/".to_string()), "3");
    assert_eq!(
        db.file_overrides,
        vec![
            ("b/lib.cairo".to_string(), "2".to_string()),
            ("a/lib.cairo".to_string(), "3".to_string()),
        ]
    );
}

#[test]
fn core_library_is_registered_once() {
    let mut db = RootDatabase::new();
    init_corelib(&mut db, &corelib());
    init_corelib(&mut db, &corelib());
    assert_eq!(db.crate_configs.len(), 1);
}

#[test]
fn later_text_for_one_file_counts() {
    let mut db = RootDatabase::new();
    setup_single_file_project_in(&mut db, Some("a".to_string()), "first");
    setup_single_file_project_in(&mut db, Some("./a".to_string()), "second");
    assert_eq!(db.file_overrides, vec![("a/lib.cairo".to_string(), "second".to_string())]);
}

#[test]
fn single_text_is_registered_alike_with_and_without_a_list() {
    for path in ["", "/", "x.cairo", "/x.cairo", "d/e/x.cairo", "./x", "../x", "v1./x", "a/b/", "a//b"] {
        let mut one = RootDatabase::new();
        let main = setup_single_file_project_with_input_string(&mut one, path, "t").unwrap();
        let mut other = RootDatabase::new();
        let crates = setup_project_with_input_string(&mut other, path, "t").unwrap();
        assert_eq!(crates.len(), 1);
        assert_eq!(crates[0].name, main.name);
        assert_eq!(one.file_overrides, other.file_overrides);
        assert_eq!(
            root_path(config(&one, "astro").unwrap()),
            root_path(config(&other, "astro").unwrap())
        );
    }
    let mut db = RootDatabase::new();
    let crates = setup_project_in(&mut db, None, "t");
    assert_eq!(crate_names(&crates), vec!["astro".to_string()]);
    assert_eq!(db.file_overrides[0].1, "t");
}

#[test]
fn paths_are_normalised() {
    for (path, expected) in [
        ("", "."),
        (".", "."),
        ("..", ".."),
        ("/", "/"),
        ("//", "/"),
        ("/..", "/"),
        ("/../a", "/a"),
        ("a//b/", "a/b"),
        ("./a", "a"),
        ("a/..", "."),
        ("a/../..", ".."),
        ("../../a", "../../a"),
        ("a/./b/../c", "a/c"),
    ] {
        assert_eq!(normalise(path), expected);
    }
    assert_eq!(split_names("a//b"), vec!["a".to_string(), String::new(), "b".to_string()]);
    assert_eq!(file_in_directory("", "x"), "x");
    assert_eq!(file_in_directory("d", "x"), "d/x");
}

#[test]
fn single_file_project_in_a_given_directory() {
    let mut db = RootDatabase::new();
    let main = setup_single_file_project_in(&mut db, Some("d".to_string()), "x");
    assert_eq!(main.name, "astro");
    assert_eq!(root_path(config(&db, "astro").unwrap()), Some("d".to_string()));
    let mut other = RootDatabase::new();
    setup_single_file_project_in(&mut other, None, "x");
    assert_eq!(root_path(config(&other, "astro").unwrap()), Some(".".to_string()));
}
