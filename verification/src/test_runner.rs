//! Running the tests of a project.
use vstd::prelude::*;

use crate::config::{
    cfg_kv, cfg_name, cfg_set_from_iter, cfg_set_insert, listed_options, option_texts,
};
use crate::database::{
    copy_crates, crate_views, empty_database, init_corelib, plain_crate, with_corelib, CrateInput,
    CrateInputView, PluginSuite, RootDatabase, RootDatabaseView,
};
use crate::directory::file_texts;
use crate::embedded::EmbeddedDir;
use crate::error::{text_result, Error, ErrorView};
use crate::number::{count_text, decimal};
use crate::project::{
    dependency_views, lemma_astro_parent, may_be_parent, setup_project_with_input_string,
    setup_virtual_project, setup_virtual_project_with_deps, single_file_crate,
    with_single_file_project, with_virtual_project, with_virtual_project_and_deps, DependencyInput,
};

verus! {

/// What the profiler asks of the compiler.
#[derive(Clone, Copy, Debug, PartialEq, Eq, Structural)]
pub struct ProfilerConfig {
    /// Whether the profiler has to know the Cairo function that a Sierra statement comes from.
    pub requires_cairo_debug_info: bool,
}

/// Which tests are run, and how.
#[derive(Debug)]
pub struct TestRunConfig {
    /// Only tests whose names contain this text are run.
    pub filter: String,
    pub include_ignored: bool,
    pub ignored: bool,
    pub profiler_config: Option<ProfilerConfig>,
    pub gas_enabled: bool,
    pub print_resource_usage: bool,
}

/// What a [`TestRunConfig`] holds.
#[verifier::ext_equal]
pub struct TestRunConfigView {
    pub filter: Seq<char>,
    pub include_ignored: bool,
    pub ignored: bool,
    pub profiler_config: Option<ProfilerConfig>,
    pub gas_enabled: bool,
    pub print_resource_usage: bool,
}

impl View for TestRunConfig {
    type V = TestRunConfigView;

    open spec fn view(&self) -> TestRunConfigView {
        TestRunConfigView {
            filter: self.filter@,
            include_ignored: self.include_ignored,
            ignored: self.ignored,
            profiler_config: self.profiler_config,
            gas_enabled: self.gas_enabled,
            print_resource_usage: self.print_resource_usage,
        }
    }
}

/// How tests are compiled.
#[derive(Debug)]
pub struct TestsCompilationConfig {
    /// Whether Starknet contracts are compiled along with the tests.
    pub starknet: bool,
    /// The paths of the contracts that tests can use. All that are found, if there is no list.
    pub contract_declarations: Option<Vec<String>>,
    /// The crates that are searched for contracts. All crates, if there is no list.
    pub contract_crate_ids: Option<Vec<CrateInput>>,
    /// The crates that are searched for executables. The tested crates, if there is no list.
    pub executable_crate_ids: Option<Vec<CrateInput>>,
    pub add_statements_functions: bool,
    pub add_statements_code_locations: bool,
    pub add_functions_debug_info: bool,
    pub replace_ids: bool,
}

/// The configuration that searches everywhere and adds nothing to the program, but a map from
/// statements to functions where the profiler needs it.
pub open spec fn is_plain_compilation(
    config: TestsCompilationConfig,
    starknet: bool,
    profiler_config: Option<ProfilerConfig>,
) -> bool {
    &&& config.starknet == starknet
    &&& config.contract_declarations is None
    &&& config.contract_crate_ids is None
    &&& config.executable_crate_ids is None
    &&& config.add_statements_functions <==> (profiler_config matches Some(profiler)
        && profiler.requires_cairo_debug_info)
    &&& !config.add_statements_code_locations
    &&& !config.add_functions_debug_info
    &&& !config.replace_ids
}

/// The configuration that searches everywhere and adds to the program what the profiler needs.
fn plain_compilation(
    starknet: bool,
    profiler_config: &Option<ProfilerConfig>,
) -> (config: TestsCompilationConfig)
    ensures
        is_plain_compilation(config, starknet, *profiler_config),
{
    let add_statements_functions = match profiler_config {
        Some(profiler) => profiler.requires_cairo_debug_info,
        None => false,
    };
    TestsCompilationConfig {
        starknet,
        contract_declarations: None,
        contract_crate_ids: None,
        executable_crate_ids: None,
        add_statements_functions,
        add_statements_code_locations: false,
        add_functions_debug_info: false,
        replace_ids: false,
    }
}

/// The `#[cfg(...)]` options that tests are compiled with.
pub open spec fn test_options(gas_enabled: bool) -> Set<(Seq<char>, Option<Seq<char>>)> {
    let options = set![cfg_name("test"@), cfg_kv("target"@, "test"@)];
    if gas_enabled {
        options
    } else {
        options.insert(cfg_kv("gas"@, "disabled"@))
    }
}

/// The database that tests are compiled in.
pub open spec fn test_database(
    gas_enabled: bool,
    starknet: bool,
    corelib: EmbeddedDir,
) -> RootDatabaseView {
    with_corelib(
        RootDatabaseView {
            auto_withdraw_gas: gas_enabled,
            cfg_set: Some(test_options(gas_enabled)),
            plugin_suites: if starknet {
                seq![PluginSuite::Test, PluginSuite::Starknet]
            } else {
                seq![PluginSuite::Test]
            },
            ..empty_database()
        },
        corelib,
    )
}

/// Builds the description of the database that tests are compiled in.
pub fn build_test_db(gas_enabled: bool, starknet: bool, corelib: &EmbeddedDir) -> (result: Result<
    RootDatabase,
    Error,
>)
    requires
        corelib.is_text(),
    ensures
        result matches Ok(db) && db.well_formed() && db@ == test_database(
            gas_enabled,
            starknet,
            *corelib,
        ),
{
    let mut db = RootDatabase::new();
    let mut options: Vec<(String, Option<String>)> = Vec::new();
    options.push(("test".to_owned(), None));
    options.push(("target".to_owned(), Some("test".to_owned())));
    let ghost listed = options@;
    let mut cfg = cfg_set_from_iter(options);
    proof {
        let texts = option_texts(listed);
        assert(texts =~= seq![cfg_name("test"@), cfg_kv("target"@, "test"@)]);
        assert(texts.contains(texts[0]) && texts.contains(texts[1]));
        assert(listed_options(listed) =~= set![cfg_name("test"@), cfg_kv("target"@, "test"@)]);
    }
    if !gas_enabled {
        cfg_set_insert(&mut cfg, "gas".to_owned(), Some("disabled".to_owned()));
        db.skip_auto_withdraw_gas();
    }
    db.with_cfg(cfg);
    db.with_default_plugin_suite(PluginSuite::Test);
    if starknet {
        db.with_default_plugin_suite(PluginSuite::Starknet);
    }
    assert(db@.plugin_suites =~= if starknet {
        seq![PluginSuite::Test, PluginSuite::Starknet]
    } else {
        seq![PluginSuite::Test]
    });
    init_corelib(&mut db, corelib);
    Ok(db)
}

/// A project whose tests are to be compiled.
#[derive(Debug)]
pub struct TestCompiler {
    pub db: RootDatabase,
    /// The crates that are compiled.
    pub main_crate_ids: Vec<CrateInput>,
    /// Those of them whose tests are run.
    pub test_crate_ids: Vec<CrateInput>,
    pub allow_warnings: bool,
    pub config: TestsCompilationConfig,
}

impl TestCompiler {
    /// The compiler for one crate, all of whose tests are run.
    pub open spec fn compiles(
        self,
        database: RootDatabaseView,
        main_crate: CrateInputView,
        allow_warnings: bool,
    ) -> bool {
        &&& self.db.well_formed()
        &&& self.db@ == database
        &&& crate_views(self.main_crate_ids@) == seq![main_crate]
        &&& crate_views(self.test_crate_ids@) == seq![main_crate]
        &&& self.allow_warnings == allow_warnings
    }

    /// The compiler for the tests in a program that is a single text, beside the file that `path`
    /// names.
    pub fn try_new_with_string(
        input_program_string: &str,
        path: &str,
        allow_warnings: bool,
        gas_enabled: bool,
        config: TestsCompilationConfig,
        corelib: &EmbeddedDir,
    ) -> (result: Result<TestCompiler, Error>)
        requires
            corelib.is_text(),
        ensures
            result is Ok,
            result->Ok_0.config == config,
            exists|parent: Option<Seq<char>>| #[trigger]
                may_be_parent(path@, parent) && result->Ok_0.compiles(
                    with_single_file_project(
                        test_database(gas_enabled, config.starknet, *corelib),
                        parent,
                        input_program_string@,
                    ),
                    plain_crate(single_file_crate()),
                    allow_warnings,
                ),
            result->Ok_0.allow_warnings == allow_warnings,
            result->Ok_0.db.auto_withdraw_gas == gas_enabled,
    {
        let mut db = match build_test_db(gas_enabled, config.starknet, corelib) {
            Ok(db) => db,
            Err(error) => {
                return Err(error);
            },
        };
        match setup_project_with_input_string(&mut db, path, input_program_string) {
            Ok(main_crates) => Ok(
                TestCompiler {
                    db,
                    test_crate_ids: copy_crates(&main_crates),
                    main_crate_ids: main_crates,
                    allow_warnings,
                    config,
                },
            ),
            Err(error) => Err(error),
        }
    }

    /// The compiler for the tests in a project that is a set of files.
    pub fn try_new_with_virtual_project(
        project_name: &str,
        files: &Vec<(String, String)>,
        allow_warnings: bool,
        gas_enabled: bool,
        config: TestsCompilationConfig,
        corelib: &EmbeddedDir,
    ) -> (result: Result<TestCompiler, Error>)
        requires
            corelib.is_text(),
        ensures
            result matches Ok(compiler) && compiler.config == config && compiler.compiles(
                with_virtual_project(
                    test_database(gas_enabled, config.starknet, *corelib),
                    project_name@,
                    file_texts(files@),
                ),
                plain_crate(project_name@),
                allow_warnings,
            ),
            result->Ok_0.allow_warnings == allow_warnings,
            result->Ok_0.db.auto_withdraw_gas == gas_enabled,
    {
        let mut db = match build_test_db(gas_enabled, config.starknet, corelib) {
            Ok(db) => db,
            Err(error) => {
                return Err(error);
            },
        };
        let main_crates = setup_virtual_project(&mut db, project_name, files);
        Ok(
            TestCompiler {
                db,
                test_crate_ids: copy_crates(&main_crates),
                main_crate_ids: main_crates,
                allow_warnings,
                config,
            },
        )
    }

    /// The compiler for the tests in a project that is a set of files and depends on other crates.
    pub fn try_new_with_virtual_project_and_deps(
        project_name: &str,
        files: &Vec<(String, String)>,
        dependencies: &Vec<(String, DependencyInput)>,
        allow_warnings: bool,
        gas_enabled: bool,
        config: TestsCompilationConfig,
        corelib: &EmbeddedDir,
    ) -> (result: Result<TestCompiler, Error>)
        requires
            corelib.is_text(),
        ensures
            result matches Ok(compiler) && compiler.config == config && compiler.compiles(
                with_virtual_project_and_deps(
                    test_database(gas_enabled, config.starknet, *corelib),
                    project_name@,
                    file_texts(files@),
                    dependency_views(dependencies@),
                ),
                plain_crate(project_name@),
                allow_warnings,
            ),
            result->Ok_0.allow_warnings == allow_warnings,
            result->Ok_0.db.auto_withdraw_gas == gas_enabled,
    {
        let mut db = match build_test_db(gas_enabled, config.starknet, corelib) {
            Ok(db) => db,
            Err(error) => {
                return Err(error);
            },
        };
        let main_crates = setup_virtual_project_with_deps(
            &mut db,
            project_name,
            files,
            dependencies,
        );
        Ok(
            TestCompiler {
                db,
                test_crate_ids: copy_crates(&main_crates),
                main_crate_ids: main_crates,
                allow_warnings,
                config,
            },
        )
    }
}

/// What makes the processors for hints of its own, by its name.
#[derive(Debug)]
pub struct HintProcessorFactory {
    pub name: String,
}

/// The tests of a project, ready to be compiled and run.
#[derive(Debug)]
pub struct TestRunner {
    pub compiler: TestCompiler,
    pub config: TestRunConfig,
    /// Where hints are not processed as usual, what makes the processors for them.
    pub custom_hint_processor_factory: Option<HintProcessorFactory>,
}

impl TestRunner {
    /// The runner for the tests of one crate.
    pub open spec fn runs(
        self,
        database: RootDatabaseView,
        main_crate: CrateInputView,
        starknet: bool,
        allow_warnings: bool,
        config: TestRunConfigView,
    ) -> bool {
        &&& self.compiler.compiles(database, main_crate, allow_warnings)
        &&& is_plain_compilation(self.compiler.config, starknet, config.profiler_config)
        &&& self.config@ == config
        &&& self.custom_hint_processor_factory is None
    }

    /// The runner for the tests in a program that is a single text, beside the file that `path`
    /// names.
    pub fn new_with_string(
        input_program_string: &str,
        path: &str,
        starknet: bool,
        allow_warnings: bool,
        config: TestRunConfig,
        corelib: &EmbeddedDir,
    ) -> (result: Result<TestRunner, Error>)
        requires
            corelib.is_text(),
        ensures
            result is Ok,
            exists|parent: Option<Seq<char>>| #[trigger]
                may_be_parent(path@, parent) && result->Ok_0.runs(
                    with_single_file_project(
                        test_database(config.gas_enabled, starknet, *corelib),
                        parent,
                        input_program_string@,
                    ),
                    plain_crate(single_file_crate()),
                    starknet,
                    allow_warnings,
                    config@,
                ),
            result->Ok_0.config == config,
            result->Ok_0.compiler.allow_warnings == allow_warnings,
            result->Ok_0.compiler.config.starknet == starknet,
    {
        match TestCompiler::try_new_with_string(
            input_program_string,
            path,
            allow_warnings,
            config.gas_enabled,
            plain_compilation(starknet, &config.profiler_config),
            corelib,
        ) {
            Ok(compiler) => Ok(
                TestRunner { compiler, config, custom_hint_processor_factory: None },
            ),
            Err(error) => Err(error),
        }
    }

    /// The runner for the tests in a project that is a set of files.
    pub fn new_with_virtual_project(
        project_name: &str,
        files: &Vec<(String, String)>,
        starknet: bool,
        allow_warnings: bool,
        config: TestRunConfig,
        corelib: &EmbeddedDir,
    ) -> (result: Result<TestRunner, Error>)
        requires
            corelib.is_text(),
        ensures
            result matches Ok(runner) && runner.runs(
                with_virtual_project(
                    test_database(config.gas_enabled, starknet, *corelib),
                    project_name@,
                    file_texts(files@),
                ),
                plain_crate(project_name@),
                starknet,
                allow_warnings,
                config@,
            ),
            result->Ok_0.config == config,
            result->Ok_0.compiler.allow_warnings == allow_warnings,
            result->Ok_0.compiler.config.starknet == starknet,
    {
        match TestCompiler::try_new_with_virtual_project(
            project_name,
            files,
            allow_warnings,
            config.gas_enabled,
            plain_compilation(starknet, &config.profiler_config),
            corelib,
        ) {
            Ok(compiler) => Ok(
                TestRunner { compiler, config, custom_hint_processor_factory: None },
            ),
            Err(error) => Err(error),
        }
    }

    /// The runner for the tests in a project that is a set of files and depends on other crates.
    pub fn new_with_virtual_project_and_deps(
        project_name: &str,
        files: &Vec<(String, String)>,
        dependencies: &Vec<(String, DependencyInput)>,
        starknet: bool,
        allow_warnings: bool,
        config: TestRunConfig,
        corelib: &EmbeddedDir,
    ) -> (result: Result<TestRunner, Error>)
        requires
            corelib.is_text(),
        ensures
            result matches Ok(runner) && runner.runs(
                with_virtual_project_and_deps(
                    test_database(config.gas_enabled, starknet, *corelib),
                    project_name@,
                    file_texts(files@),
                    dependency_views(dependencies@),
                ),
                plain_crate(project_name@),
                starknet,
                allow_warnings,
                config@,
            ),
            result->Ok_0.config == config,
            result->Ok_0.compiler.allow_warnings == allow_warnings,
            result->Ok_0.compiler.config.starknet == starknet,
    {
        match TestCompiler::try_new_with_virtual_project_and_deps(
            project_name,
            files,
            dependencies,
            allow_warnings,
            config.gas_enabled,
            plain_compilation(starknet, &config.profiler_config),
            corelib,
        ) {
            Ok(compiler) => Ok(
                TestRunner { compiler, config, custom_hint_processor_factory: None },
            ),
            Err(error) => Err(error),
        }
    }
}

/// The names of the tests that were run or left out.
#[derive(Debug)]
pub struct TestsSummary {
    pub passed: Vec<String>,
    pub failed: Vec<String>,
    pub ignored: Vec<String>,
}

/// The line that tells how many tests passed, failed or were ignored.
pub open spec fn summary_text(summary: TestsSummary) -> Seq<char> {
    "test result: passed: "@ + decimal(summary.passed@.len()) + ", failed: "@ + decimal(
        summary.failed@.len(),
    ) + ", ignored: "@ + decimal(summary.ignored@.len())
}

/// What is told of a test run that came to its end.
pub open spec fn outcome_text(outcome: Option<TestsSummary>) -> Seq<char> {
    match outcome {
        Some(summary) => summary_text(summary),
        None => "All tests passed."@,
    }
}

/// A test run that came to its end, or the error that kept it from it.
pub open spec fn outcome_result(result: Result<Option<TestsSummary>, Error>) -> Result<
    Option<TestsSummary>,
    ErrorView,
> {
    match result {
        Ok(outcome) => Ok(outcome),
        Err(error) => Err(error@),
    }
}

/// What is told of a test run. An error is handed on as it is.
pub open spec fn formatted(result: Result<Option<TestsSummary>, ErrorView>) -> Result<
    Seq<char>,
    ErrorView,
> {
    match result {
        Ok(outcome) => Ok(outcome_text(outcome)),
        Err(error) => Err(error),
    }
}

/// Tells what came of a test run.
pub fn format_test_result(result: Result<Option<TestsSummary>, Error>) -> (text: Result<
    String,
    Error,
>)
    ensures
        text_result(text) == formatted(outcome_result(result)),
{
    match result {
        Ok(Some(summary)) => {
            let passed = count_text(summary.passed.len());
            let failed = count_text(summary.failed.len());
            let ignored = count_text(summary.ignored.len());
            let mut text = "test result: passed: ".to_owned();
            text.append(passed.as_str());
            text.append(", failed: ");
            text.append(failed.as_str());
            text.append(", ignored: ");
            text.append(ignored.as_str());
            Ok(text)
        },
        Ok(None) => Ok("All tests passed.".to_owned()),
        Err(error) => Err(error),
    }
}

/// How far a test run has come.
#[derive(Debug)]
pub enum TestStage {
    BuildDatabase,
    RunTests,
    Finished(Result<Option<TestsSummary>, Error>),
}

/// What a [`TestStage`] holds.
pub enum TestStageView {
    BuildDatabase,
    RunTests,
    Finished(Result<Option<TestsSummary>, ErrorView>),
}

impl View for TestStage {
    type V = TestStageView;

    open spec fn view(&self) -> TestStageView {
        match *self {
            TestStage::BuildDatabase => TestStageView::BuildDatabase,
            TestStage::RunTests => TestStageView::RunTests,
            TestStage::Finished(result) => TestStageView::Finished(outcome_result(result)),
        }
    }
}

/// What is to be done next.
#[derive(Clone, Copy, Debug, PartialEq, Eq)]
pub enum TestAction {
    /// Build the database that the runner describes.
    BuildDatabase,
    /// Compile the tests, and run them.
    RunTests,
    /// Nothing: the test run is over.
    Nothing,
}

/// What came of an action. A failure is told by the message of its error.
#[derive(Debug)]
pub enum TestEvent {
    DatabaseBuilt(Result<(), String>),
    /// The tests were run. There is no summary where the run itself says that all passed.
    TestsRun(Result<Option<TestsSummary>, String>),
}

/// What is done next at a stage.
pub open spec fn test_action(stage: TestStageView) -> TestAction {
    match stage {
        TestStageView::BuildDatabase => TestAction::BuildDatabase,
        TestStageView::RunTests => TestAction::RunTests,
        TestStageView::Finished(_) => TestAction::Nothing,
    }
}

/// The stage that follows an event, if the event is one that the stage waits for.
pub open spec fn test_next(stage: TestStageView, event: TestEvent) -> Option<TestStageView> {
    match (stage, event) {
        (TestStageView::BuildDatabase, TestEvent::DatabaseBuilt(built)) => match built {
            Ok(_) => Some(TestStageView::RunTests),
            Err(message) => Some(
                TestStageView::Finished(Err(ErrorView::Outside { message: message@ })),
            ),
        },
        (TestStageView::RunTests, TestEvent::TestsRun(run)) => match run {
            Ok(outcome) => Some(TestStageView::Finished(Ok(outcome))),
            Err(message) => Some(
                TestStageView::Finished(Err(ErrorView::Outside { message: message@ })),
            ),
        },
        _ => None,
    }
}

/// A test run: what is run, and how far the run has come.
#[derive(Debug)]
pub struct TestSession {
    pub runner: TestRunner,
    pub stage: TestStage,
}

impl TestSession {
    /// A test run that has just begun.
    pub open spec fn begins(
        self,
        database: RootDatabaseView,
        main_crate: CrateInputView,
        starknet: bool,
        allow_warnings: bool,
        config: TestRunConfigView,
    ) -> bool {
        &&& self.runner.runs(database, main_crate, starknet, allow_warnings, config)
        &&& self.stage@ == TestStageView::BuildDatabase
    }

    /// What is to be done next.
    pub fn action(&self) -> (action: TestAction)
        ensures
            action == test_action(self.stage@),
    {
        match &self.stage {
            TestStage::BuildDatabase => TestAction::BuildDatabase,
            TestStage::RunTests => TestAction::RunTests,
            TestStage::Finished(_) => TestAction::Nothing,
        }
    }

    /// Takes note of what came of the last action. An event that the test run does not wait for is
    /// not taken, and changes nothing.
    pub fn advance(&mut self, event: TestEvent) -> (taken: bool)
        ensures
            taken <==> test_next(old(self).stage@, event) is Some,
            taken ==> final(self).stage@ == test_next(old(self).stage@, event)->0,
            !taken ==> final(self).stage == old(self).stage,
            final(self).runner == old(self).runner,
    {
        let next = match (&self.stage, event) {
            (TestStage::BuildDatabase, TestEvent::DatabaseBuilt(built)) => match built {
                Ok(_) => TestStage::RunTests,
                Err(message) => TestStage::Finished(Err(Error::Outside { message })),
            },
            (TestStage::RunTests, TestEvent::TestsRun(run)) => match run {
                Ok(outcome) => TestStage::Finished(Ok(outcome)),
                Err(message) => TestStage::Finished(Err(Error::Outside { message })),
            },
            _ => {
                return false;
            },
        };
        self.stage = next;
        true
    }

    /// What came of the test run, once it is over.
    pub fn into_result(self) -> (result: Option<Result<Option<TestsSummary>, Error>>)
        ensures
            result is Some <==> self.stage is Finished,
            result matches Some(result) ==> self.stage@ == TestStageView::Finished(
                outcome_result(result),
            ),
    {
        match self.stage {
            TestStage::Finished(result) => Some(result),
            _ => None,
        }
    }
}

/// A test run that ends in a text.
#[derive(Debug)]
pub struct ParsedTestSession {
    pub session: TestSession,
}

impl ParsedTestSession {
    /// What is told of the test run, once it is over.
    pub fn into_result(self) -> (result: Option<Result<String, Error>>)
        ensures
            result is Some <==> self.session.stage is Finished,
            result matches Some(text) ==> self.session.stage@ matches TestStageView::Finished(
                outcome,
            ) && text_result(text) == formatted(outcome),
    {
        match self.session.into_result() {
            Some(result) => Some(format_test_result(result)),
            None => None,
        }
    }
}

/// The configuration of a test run without a profiler.
pub open spec fn run_config(
    filter: Seq<char>,
    include_ignored: bool,
    ignored: bool,
    gas_disabled: bool,
    print_resource_usage: bool,
) -> TestRunConfigView {
    TestRunConfigView {
        filter,
        include_ignored,
        ignored,
        profiler_config: None,
        gas_enabled: !gas_disabled,
        print_resource_usage,
    }
}

/// Begins to run the tests in a program that is a single text. There is no profiling.
pub fn run_tests_with_input_string(
    input_program_string: &str,
    allow_warnings: bool,
    filter: String,
    include_ignored: bool,
    ignored: bool,
    starknet: bool,
    _run_profiler: String,
    gas_disabled: bool,
    print_resource_usage: bool,
    corelib: &EmbeddedDir,
) -> (result: Result<TestSession, Error>)
    requires
        corelib.is_text(),
    ensures
        result matches Ok(session) && session.begins(
            with_single_file_project(
                test_database(!gas_disabled, starknet, *corelib),
                Some(Seq::empty()),
                input_program_string@,
            ),
            plain_crate(single_file_crate()),
            starknet,
            allow_warnings,
            run_config(
                filter@,
                include_ignored,
                ignored,
                gas_disabled,
                print_resource_usage,
            ),
        ),
        result->Ok_0.runner.config.filter@ == filter@,
        result->Ok_0.runner.config.include_ignored == include_ignored,
        result->Ok_0.runner.config.ignored == ignored,
        result->Ok_0.runner.config.gas_enabled == !gas_disabled,
        result->Ok_0.runner.config.print_resource_usage == print_resource_usage,
        result->Ok_0.runner.config.profiler_config is None,
        result->Ok_0.runner.compiler.allow_warnings == allow_warnings,
        result->Ok_0.runner.compiler.config.starknet == starknet,
{
    let config = TestRunConfig {
        filter,
        include_ignored,
        ignored,
        profiler_config: None,
        gas_enabled: !gas_disabled,
        print_resource_usage,
    };
    let ghost expected = config@;
    match TestRunner::new_with_string(
        input_program_string,
        "astro",
        starknet,
        allow_warnings,
        config,
        corelib,
    ) {
        Ok(runner) => {
            proof {
                let parent = choose|parent: Option<Seq<char>>| #[trigger]
                    may_be_parent("astro"@, parent) && runner.runs(
                        with_single_file_project(
                            test_database(!gas_disabled, starknet, *corelib),
                            parent,
                            input_program_string@,
                        ),
                        plain_crate(single_file_crate()),
                        starknet,
                        allow_warnings,
                        expected,
                    );
                lemma_astro_parent(parent);
            }
            Ok(TestSession { runner, stage: TestStage::BuildDatabase })
        },
        Err(error) => Err(error),
    }
}

/// Begins to run the tests in a program that is a single text, to tell what came of it.
pub fn run_tests_with_input_string_parsed(
    input_program_string: &str,
    allow_warnings: bool,
    filter: String,
    include_ignored: bool,
    ignored: bool,
    starknet: bool,
    run_profiler: String,
    gas_disabled: bool,
    print_resource_usage: bool,
    corelib: &EmbeddedDir,
) -> (result: Result<ParsedTestSession, Error>)
    requires
        corelib.is_text(),
    ensures
        result matches Ok(parsed) && parsed.session.begins(
            with_single_file_project(
                test_database(!gas_disabled, starknet, *corelib),
                Some(Seq::empty()),
                input_program_string@,
            ),
            plain_crate(single_file_crate()),
            starknet,
            allow_warnings,
            run_config(
                filter@,
                include_ignored,
                ignored,
                gas_disabled,
                print_resource_usage,
            ),
        ),
        result->Ok_0.session.runner.config.filter@ == filter@,
        result->Ok_0.session.runner.config.include_ignored == include_ignored,
        result->Ok_0.session.runner.config.ignored == ignored,
        result->Ok_0.session.runner.config.gas_enabled == !gas_disabled,
        result->Ok_0.session.runner.config.print_resource_usage == print_resource_usage,
        result->Ok_0.session.runner.config.profiler_config is None,
        result->Ok_0.session.runner.compiler.allow_warnings == allow_warnings,
        result->Ok_0.session.runner.compiler.config.starknet == starknet,
{
    match run_tests_with_input_string(
        input_program_string,
        allow_warnings,
        filter,
        include_ignored,
        ignored,
        starknet,
        run_profiler,
        gas_disabled,
        print_resource_usage,
        corelib,
    ) {
        Ok(session) => Ok(ParsedTestSession { session }),
        Err(error) => Err(error),
    }
}

/// Begins to run the tests in a project that is a set of files.
pub fn run_tests_with_virtual_project(
    project_name: &str,
    files: &Vec<(String, String)>,
    allow_warnings: bool,
    filter: String,
    include_ignored: bool,
    ignored: bool,
    starknet: bool,
    gas_disabled: bool,
    print_resource_usage: bool,
    corelib: &EmbeddedDir,
) -> (result: Result<TestSession, Error>)
    requires
        corelib.is_text(),
    ensures
        result matches Ok(session) && session.begins(
            with_virtual_project(
                test_database(!gas_disabled, starknet, *corelib),
                project_name@,
                file_texts(files@),
            ),
            plain_crate(project_name@),
            starknet,
            allow_warnings,
            run_config(
                filter@,
                include_ignored,
                ignored,
                gas_disabled,
                print_resource_usage,
            ),
        ),
        result->Ok_0.runner.config.filter@ == filter@,
        result->Ok_0.runner.config.include_ignored == include_ignored,
        result->Ok_0.runner.config.ignored == ignored,
        result->Ok_0.runner.config.gas_enabled == !gas_disabled,
        result->Ok_0.runner.config.print_resource_usage == print_resource_usage,
        result->Ok_0.runner.config.profiler_config is None,
        result->Ok_0.runner.compiler.allow_warnings == allow_warnings,
        result->Ok_0.runner.compiler.config.starknet == starknet,
{
    let config = TestRunConfig {
        filter,
        include_ignored,
        ignored,
        profiler_config: None,
        gas_enabled: !gas_disabled,
        print_resource_usage,
    };
    match TestRunner::new_with_virtual_project(
        project_name,
        files,
        starknet,
        allow_warnings,
        config,
        corelib,
    ) {
        Ok(runner) => Ok(TestSession { runner, stage: TestStage::BuildDatabase }),
        Err(error) => Err(error),
    }
}

/// Begins to run the tests in a project that is a set of files, to tell what came of it.
pub fn run_tests_with_virtual_project_parsed(
    project_name: &str,
    files: &Vec<(String, String)>,
    allow_warnings: bool,
    filter: String,
    include_ignored: bool,
    ignored: bool,
    starknet: bool,
    gas_disabled: bool,
    print_resource_usage: bool,
    corelib: &EmbeddedDir,
) -> (result: Result<ParsedTestSession, Error>)
    requires
        corelib.is_text(),
    ensures
        result matches Ok(parsed) && parsed.session.begins(
            with_virtual_project(
                test_database(!gas_disabled, starknet, *corelib),
                project_name@,
                file_texts(files@),
            ),
            plain_crate(project_name@),
            starknet,
            allow_warnings,
            run_config(
                filter@,
                include_ignored,
                ignored,
                gas_disabled,
                print_resource_usage,
            ),
        ),
        result->Ok_0.session.runner.config.filter@ == filter@,
        result->Ok_0.session.runner.config.include_ignored == include_ignored,
        result->Ok_0.session.runner.config.ignored == ignored,
        result->Ok_0.session.runner.config.gas_enabled == !gas_disabled,
        result->Ok_0.session.runner.config.print_resource_usage == print_resource_usage,
        result->Ok_0.session.runner.config.profiler_config is None,
        result->Ok_0.session.runner.compiler.allow_warnings == allow_warnings,
        result->Ok_0.session.runner.compiler.config.starknet == starknet,
{
    match run_tests_with_virtual_project(
        project_name,
        files,
        allow_warnings,
        filter,
        include_ignored,
        ignored,
        starknet,
        gas_disabled,
        print_resource_usage,
        corelib,
    ) {
        Ok(session) => Ok(ParsedTestSession { session }),
        Err(error) => Err(error),
    }
}

/// Begins to run the tests in a project that is a set of files and depends on other crates.
pub fn run_tests_with_virtual_project_and_deps(
    project_name: &str,
    files: &Vec<(String, String)>,
    dependencies: &Vec<(String, DependencyInput)>,
    allow_warnings: bool,
    filter: String,
    include_ignored: bool,
    ignored: bool,
    starknet: bool,
    gas_disabled: bool,
    print_resource_usage: bool,
    corelib: &EmbeddedDir,
) -> (result: Result<TestSession, Error>)
    requires
        corelib.is_text(),
    ensures
        result matches Ok(session) && session.begins(
            with_virtual_project_and_deps(
                test_database(!gas_disabled, starknet, *corelib),
                project_name@,
                file_texts(files@),
                dependency_views(dependencies@),
            ),
            plain_crate(project_name@),
            starknet,
            allow_warnings,
            run_config(
                filter@,
                include_ignored,
                ignored,
                gas_disabled,
                print_resource_usage,
            ),
        ),
        result->Ok_0.runner.config.filter@ == filter@,
        result->Ok_0.runner.config.include_ignored == include_ignored,
        result->Ok_0.runner.config.ignored == ignored,
        result->Ok_0.runner.config.gas_enabled == !gas_disabled,
        result->Ok_0.runner.config.print_resource_usage == print_resource_usage,
        result->Ok_0.runner.config.profiler_config is None,
        result->Ok_0.runner.compiler.allow_warnings == allow_warnings,
        result->Ok_0.runner.compiler.config.starknet == starknet,
{
    let config = TestRunConfig {
        filter,
        include_ignored,
        ignored,
        profiler_config: None,
        gas_enabled: !gas_disabled,
        print_resource_usage,
    };
    match TestRunner::new_with_virtual_project_and_deps(
        project_name,
        files,
        dependencies,
        starknet,
        allow_warnings,
        config,
        corelib,
    ) {
        Ok(runner) => Ok(TestSession { runner, stage: TestStage::BuildDatabase }),
        Err(error) => Err(error),
    }
}

/// Begins to run the tests in a project that is a set of files and depends on other crates, to
/// tell what came of it.
pub fn run_tests_with_virtual_project_and_deps_parsed(
    project_name: &str,
    files: &Vec<(String, String)>,
    dependencies: &Vec<(String, DependencyInput)>,
    allow_warnings: bool,
    filter: String,
    include_ignored: bool,
    ignored: bool,
    starknet: bool,
    gas_disabled: bool,
    print_resource_usage: bool,
    corelib: &EmbeddedDir,
) -> (result: Result<ParsedTestSession, Error>)
    requires
        corelib.is_text(),
    ensures
        result matches Ok(parsed) && parsed.session.begins(
            with_virtual_project_and_deps(
                test_database(!gas_disabled, starknet, *corelib),
                project_name@,
                file_texts(files@),
                dependency_views(dependencies@),
            ),
            plain_crate(project_name@),
            starknet,
            allow_warnings,
            run_config(
                filter@,
                include_ignored,
                ignored,
                gas_disabled,
                print_resource_usage,
            ),
        ),
        result->Ok_0.session.runner.config.filter@ == filter@,
        result->Ok_0.session.runner.config.include_ignored == include_ignored,
        result->Ok_0.session.runner.config.ignored == ignored,
        result->Ok_0.session.runner.config.gas_enabled == !gas_disabled,
        result->Ok_0.session.runner.config.print_resource_usage == print_resource_usage,
        result->Ok_0.session.runner.config.profiler_config is None,
        result->Ok_0.session.runner.compiler.allow_warnings == allow_warnings,
        result->Ok_0.session.runner.compiler.config.starknet == starknet,
{
    match run_tests_with_virtual_project_and_deps(
        project_name,
        files,
        dependencies,
        allow_warnings,
        filter,
        include_ignored,
        ignored,
        starknet,
        gas_disabled,
        print_resource_usage,
        corelib,
    ) {
        Ok(session) => Ok(ParsedTestSession { session }),
        Err(error) => Err(error),
    }
}

} // verus!
