use cairo_lang_filesystem::cfg::{Cfg, CfgSet};
use cairo_wasm_interface::database::PluginSuite;
use cairo_wasm_interface::embedded::EmbeddedDir;
use cairo_wasm_interface::error::Error;
use cairo_wasm_interface::project::DependencyInput;
use cairo_wasm_interface::test_runner::{
    build_test_db, format_test_result, run_tests_with_input_string,
    run_tests_with_input_string_parsed, run_tests_with_virtual_project,
    run_tests_with_virtual_project_and_deps, run_tests_with_virtual_project_and_deps_parsed,
    run_tests_with_virtual_project_parsed, ProfilerConfig, TestAction, TestCompiler, TestEvent,
    TestRunConfig, TestRunner, TestsSummary,
};

fn corelib() -> EmbeddedDir {
    EmbeddedDir { files: vec![("lib.cairo".to_string(), b"".to_vec())], dirs: vec![] }
}

fn summary(passed: usize, failed: usize, ignored: usize) -> TestsSummary {
    let named = |n: usize| (0..n).map(|i| format!("t{i}")).collect();
    TestsSummary { passed: named(passed), failed: named(failed), ignored: named(ignored) }
}

fn config(profiler_config: Option<ProfilerConfig>) -> TestRunConfig {
    TestRunConfig {
        filter: "f".to_string(),
        include_ignored: true,
        ignored: false,
        profiler_config,
        gas_enabled: false,
        print_resource_usage: true,
    }
}

fn names(compiler: &TestCompiler) -> Vec<String> {
    compiler.db.crate_configs.iter().map(|(name, _)| name.clone()).collect()
}

fn options(gas: bool) -> CfgSet {
    let mut set = CfgSet::from_iter([Cfg::name("test"), Cfg::kv("target", "test")]);
    if !gas {
        set.insert(Cfg::kv("gas", "disabled"));
    }
    set
}

#[test]
fn outcomes_are_told() {
    assert_eq!(
        format_test_result(Ok(Some(summary(12, 0, 3)))).unwrap(),
        "test result: passed: 12, failed: 0, ignored: 3"
    );
    assert_eq!(format_test_result(Ok(None)).unwrap(), "All tests passed.");
    let error = format_test_result(Err(Error::Outside { message: "no".to_string() })).unwrap_err();
    assert_eq!(error.message(), "no");
}

#[test]
fn test_database_with_gas() {
    let db = build_test_db(true, false, &corelib()).unwrap();
    assert!(db.auto_withdraw_gas);
    assert_eq!(db.cfg_set, Some(options(true)));
    assert_eq!(db.plugin_suites, vec![PluginSuite::Test]);
    assert_eq!(db.crate_configs.len(), 1);
    assert_eq!(db.crate_configs[0].0, "core");
}

#[test]
fn test_database_without_gas() {
    let db = build_test_db(false, true, &corelib()).unwrap();
    assert!(!db.auto_withdraw_gas);
    assert_eq!(db.cfg_set, Some(options(false)));
    assert_eq!(db.plugin_suites, vec![PluginSuite::Test, PluginSuite::Starknet]);
}

#[test]
fn profiler_asks_for_debug_info() {
    for (profiler, expected) in [
        (None, false),
        (Some(ProfilerConfig { requires_cairo_debug_info: false }), false),
        (Some(ProfilerConfig { requires_cairo_debug_info: true }), true),
    ] {
        let runner =
            TestRunner::new_with_string("", "d/x", true, false, config(profiler), &corelib()).unwrap();
        assert_eq!(runner.compiler.config.add_statements_functions, expected);
        assert!(runner.compiler.config.starknet);
        assert!(runner.compiler.config.contract_declarations.is_none());
        assert!(runner.compiler.config.contract_crate_ids.is_none());
        assert!(runner.compiler.config.executable_crate_ids.is_none());
        assert!(!runner.compiler.config.add_statements_code_locations);
        assert!(!runner.compiler.config.add_functions_debug_info);
        assert!(!runner.compiler.config.replace_ids);
        assert_eq!(runner.compiler.db.file_overrides[0].0, "d/lib.cairo");
        assert!(runner.custom_hint_processor_factory.is_none());
        assert_eq!(runner.config.filter, "f");
        assert!(!runner.compiler.db.auto_withdraw_gas);
    }
}

#[test]
fn tests_of_a_single_text() {
    let mut session = run_tests_with_input_string(
        "#[test] fn t() {}",
        true,
        "t".to_string(),
        true,
        false,
        false,
        "cairo".to_string(),
        false,
        true,
        &corelib(),
    )
    .unwrap();
    let compiler = &session.runner.compiler;
    assert_eq!(names(compiler), vec!["core".to_string(), "astro".to_string()]);
    assert_eq!(compiler.main_crate_ids.len(), 1);
    assert_eq!(compiler.main_crate_ids[0].name, "astro");
    assert_eq!(compiler.test_crate_ids[0].name, "astro");
    assert!(compiler.allow_warnings);
    assert!(session.runner.config.profiler_config.is_none());
    assert!(session.runner.config.gas_enabled);
    assert!(session.runner.config.include_ignored);
    assert!(!session.runner.config.ignored);
    assert!(session.runner.config.print_resource_usage);
    assert_eq!(session.action(), TestAction::BuildDatabase);
    assert!(!session.advance(TestEvent::TestsRun(Ok(None))));
    assert!(session.advance(TestEvent::DatabaseBuilt(Ok(()))));
    assert_eq!(session.action(), TestAction::RunTests);
    assert!(session.advance(TestEvent::TestsRun(Ok(Some(summary(1, 0, 0))))));
    assert_eq!(session.action(), TestAction::Nothing);
    assert!(!session.advance(TestEvent::TestsRun(Ok(None))));
    let outcome = session.into_result().unwrap().unwrap().unwrap();
    assert_eq!(outcome.passed, vec!["t0".to_string()]);
}

#[test]
fn tests_of_a_single_text_are_told() {
    let mut parsed = run_tests_with_input_string_parsed(
        "",
        false,
        String::new(),
        false,
        true,
        true,
        String::new(),
        true,
        false,
        &corelib(),
    )
    .unwrap();
    assert!(!parsed.session.runner.config.gas_enabled);
    assert!(parsed.session.runner.config.ignored);
    parsed.session.advance(TestEvent::DatabaseBuilt(Ok(())));
    parsed.session.advance(TestEvent::TestsRun(Ok(Some(summary(0, 2, 10)))));
    assert_eq!(
        parsed.into_result().unwrap().unwrap(),
        "test result: passed: 0, failed: 2, ignored: 10"
    );
}

#[test]
fn test_run_that_is_not_over_has_no_result() {
    let parsed = run_tests_with_virtual_project_parsed(
        "p",
        &Vec::new(),
        false,
        String::new(),
        false,
        false,
        false,
        false,
        false,
        &corelib(),
    )
    .unwrap();
    assert!(parsed.into_result().is_none());
}

#[test]
fn failures_end_a_test_run() {
    let begun = || {
        run_tests_with_virtual_project(
            "p",
            &vec![("lib.cairo".to_string(), String::new())],
            false,
            String::new(),
            false,
            false,
            false,
            false,
            false,
            &corelib(),
        )
        .unwrap()
    };
    let mut early = begun();
    assert_eq!(names(&early.runner.compiler), vec!["core".to_string(), "p".to_string()]);
    assert!(early.advance(TestEvent::DatabaseBuilt(Err("no database".to_string()))));
    assert_eq!(early.into_result().unwrap().unwrap_err().message(), "no database");
    let mut late = begun();
    late.advance(TestEvent::DatabaseBuilt(Ok(())));
    assert!(late.advance(TestEvent::TestsRun(Err("failed to compile".to_string()))));
    assert_eq!(late.into_result().unwrap().unwrap_err().message(), "failed to compile");
}

#[test]
fn tests_of_a_project_with_dependencies() {
    let dependencies = vec![(
        "dep".to_string(),
        DependencyInput { files: vec![], edition: None, dependencies: vec![] },
    )];
    let session = run_tests_with_virtual_project_and_deps(
        "p",
        &Vec::new(),
        &dependencies,
        false,
        "x".to_string(),
        false,
        false,
        true,
        false,
        false,
        &corelib(),
    )
    .unwrap();
    assert_eq!(
        names(&session.runner.compiler),
        vec!["core".to_string(), "dep".to_string(), "p".to_string()]
    );
    assert_eq!(session.runner.config.filter, "x");
    let mut parsed = run_tests_with_virtual_project_and_deps_parsed(
        "p",
        &Vec::new(),
        &dependencies,
        false,
        "x".to_string(),
        false,
        false,
        true,
        false,
        false,
        &corelib(),
    )
    .unwrap();
    parsed.session.advance(TestEvent::DatabaseBuilt(Ok(())));
    parsed.session.advance(TestEvent::TestsRun(Ok(None)));
    assert_eq!(parsed.into_result().unwrap().unwrap(), "All tests passed.");
}
