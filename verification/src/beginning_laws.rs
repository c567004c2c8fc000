//! How runs, compilations and test runs begin: with the settings that the caller asked for, and
//! with a database that suits them.
use vstd::prelude::*;

use crate::compile::{self, CompileSession};
use crate::database::{
    crate_views, empty_database, plain_crate, with_corelib, PluginSuite, RootDatabaseView,
};
use crate::embedded::EmbeddedDir;
use crate::run::{self, run_database, RunOptions, RunSession};
use crate::starknet::{
    self, starknet_database, starknet_options, ListSelector, StarknetSession,
};
use crate::test_runner::{
    run_config, test_database, TestCompiler, TestRunConfig, TestRunner, TestSession,
};

verus! {

/// Whatever a database is made for, nothing but the core library is registered in it at first, and
/// no file is overridden.
pub proof fn law_only_the_core_library_is_there_at_first(
    available_gas: Option<usize>,
    gas_enabled: bool,
    starknet: bool,
    corelib: EmbeddedDir,
)
    ensures
        run_database(available_gas, corelib).crate_configs.dom() == set!["core"@],
        with_corelib(empty_database(), corelib).crate_configs.dom() == set!["core"@],
        starknet_database(corelib).crate_configs.dom() == set!["core"@],
        test_database(gas_enabled, starknet, corelib).crate_configs.dom() == set!["core"@],
        run_database(available_gas, corelib).file_overrides.len() == 0,
        with_corelib(empty_database(), corelib).file_overrides.len() == 0,
        starknet_database(corelib).file_overrides.len() == 0,
        test_database(gas_enabled, starknet, corelib).file_overrides.len() == 0,
{
    let alone = set!["core"@];
    assert(run_database(available_gas, corelib).crate_configs.dom() =~= alone);
    assert(with_corelib(empty_database(), corelib).crate_configs.dom() =~= alone);
    assert(starknet_database(corelib).crate_configs.dom() =~= alone);
    assert(test_database(gas_enabled, starknet, corelib).crate_configs.dom() =~= alone);
}

/// A database is made with what it is needed for: a run withdraws gas if gas was given, a
/// compilation always does, contracts need the plugins of Starknet, and tests those for tests.
pub proof fn law_databases_suit_what_they_are_made_for(
    available_gas: Option<usize>,
    gas_enabled: bool,
    starknet: bool,
    corelib: EmbeddedDir,
)
    ensures
        ({
            let db = run_database(available_gas, corelib);
            &&& db.auto_withdraw_gas == available_gas is Some
            &&& db.cfg_set is None
            &&& db.plugin_suites.len() == 0
        }),
        ({
            let db = with_corelib(empty_database(), corelib);
            &&& db.auto_withdraw_gas
            &&& db.cfg_set is None
            &&& db.plugin_suites.len() == 0
        }),
        ({
            let db = starknet_database(corelib);
            &&& db.auto_withdraw_gas
            &&& db.cfg_set is None
            &&& db.plugin_suites == seq![PluginSuite::Starknet]
        }),
        ({
            let db = test_database(gas_enabled, starknet, corelib);
            &&& db.auto_withdraw_gas == gas_enabled
            &&& db.cfg_set is Some
            &&& starknet ==> db.plugin_suites == seq![PluginSuite::Test, PluginSuite::Starknet]
            &&& !starknet ==> db.plugin_suites == seq![PluginSuite::Test]
        }),
{
}

/// Tests are compiled with the options `test` and `target = "test"`, and with `gas = "disabled"` if
/// and only if no gas is counted. There is no other option.
pub proof fn law_tests_are_compiled_with_their_options(
    gas_enabled: bool,
    starknet: bool,
    corelib: EmbeddedDir,
    option: (Seq<char>, Option<Seq<char>>),
)
    ensures
        test_database(gas_enabled, starknet, corelib).cfg_set->0.contains(option) <==> {
            ||| option == ("test"@, None::<Seq<char>>)
            ||| option == ("target"@, Some("test"@))
            ||| !gas_enabled && option == ("gas"@, Some("disabled"@))
        },
{
}

/// A run begins with the database that was made for it, with one crate, and with what the caller
/// asked for.
pub proof fn law_run_begins_with_the_choices_of_the_caller(
    session: RunSession,
    database: RootDatabaseView,
    name: Seq<char>,
    options: RunOptions,
)
    requires
        run::begins(session, database, plain_crate(name), options),
    ensures
        session.database@ == database,
        session.database.auto_withdraw_gas == database.auto_withdraw_gas,
        session.database.plugin_suites@ == database.plugin_suites,
        session.main_crates@.len() == 1,
        session.main_crates@[0].name@ == name,
        session.main_crates@[0].discriminator is None,
        session.options.available_gas == options.available_gas,
        session.options.allow_warnings == options.allow_warnings,
        session.options.print_full_memory == options.print_full_memory,
        session.options.run_profiler == options.run_profiler,
        session.options.use_dbg_print_hint == options.use_dbg_print_hint,
        session.stage is BuildDatabase,
{
    assert(crate_views(session.main_crates@).len() == session.main_crates@.len());
    assert(crate_views(session.main_crates@)[0] == session.main_crates@[0]@);
}

/// A compilation begins with the database that was made for it, with one crate, and with the
/// configuration of the caller.
pub proof fn law_compilation_begins_with_the_choices_of_the_caller<C, P>(
    session: CompileSession<C, P>,
    database: RootDatabaseView,
    name: Seq<char>,
    compiler_config: C,
)
    requires
        compile::begins(session, database, plain_crate(name), compiler_config),
    ensures
        session.database@ == database,
        session.database.auto_withdraw_gas == database.auto_withdraw_gas,
        session.database.plugin_suites@ == database.plugin_suites,
        session.main_crates@.len() == 1,
        session.main_crates@[0].name@ == name,
        session.main_crates@[0].discriminator is None,
        session.compiler_config == compiler_config,
        session.stage is BuildDatabase,
{
    assert(crate_views(session.main_crates@).len() == session.main_crates@.len());
    assert(crate_views(session.main_crates@)[0] == session.main_crates@[0]@);
}

/// The compilation of a contract begins with the database that was made for it, with one crate, and
/// with what the caller asked for: the flags, the path of the contract, and the list of library
/// functions that is selected by its name or by its file, or else the default one.
pub proof fn law_contract_begins_with_the_choices_of_the_caller(
    session: StarknetSession,
    database: RootDatabaseView,
    name: Seq<char>,
    allow_warnings: bool,
    replace_ids: bool,
    output_casm: bool,
    contract_path: Option<String>,
    list_name: Option<String>,
    list_file: Option<String>,
)
    requires
        list_name is None || list_file is None,
        starknet::begins(
            session,
            database,
            plain_crate(name),
            starknet_options(
                allow_warnings,
                replace_ids,
                output_casm,
                contract_path,
                list_name,
                list_file,
            ),
        ),
    ensures
        session.database@ == database,
        session.database.auto_withdraw_gas == database.auto_withdraw_gas,
        session.database.plugin_suites@ == database.plugin_suites,
        session.main_crates@.len() == 1,
        session.main_crates@[0].name@ == name,
        session.main_crates@[0].discriminator is None,
        session.options.allow_warnings == allow_warnings,
        session.options.replace_ids == replace_ids,
        session.options.output_casm == output_casm,
        contract_path is None <==> session.options.contract_path is None,
        contract_path matches Some(path) ==> session.options.contract_path->0@ == path@,
        list_name matches Some(list) ==> (
        session.options.list_selector matches ListSelector::ListName(selected) && selected@
            == list@),
        list_file matches Some(file) ==> (
        session.options.list_selector matches ListSelector::ListFile(selected) && selected@
            == file@),
        list_name is None && list_file is None ==> session.options.list_selector is DefaultList,
        session.stage is BuildDatabase,
{
    assert(crate_views(session.main_crates@).len() == session.main_crates@.len());
    assert(crate_views(session.main_crates@)[0] == session.main_crates@[0]@);
}

/// A test run begins with what the caller asked for, in every field of its configuration, without a
/// profiler and without hints of its own; with the database that was made for it; and with one
/// crate, all of whose tests are run. Nothing is added to the program that is tested.
pub proof fn law_test_run_begins_with_the_choices_of_the_caller(
    session: TestSession,
    database: RootDatabaseView,
    name: Seq<char>,
    starknet: bool,
    allow_warnings: bool,
    filter: Seq<char>,
    include_ignored: bool,
    ignored: bool,
    gas_disabled: bool,
    print_resource_usage: bool,
)
    requires
        session.begins(
            database,
            plain_crate(name),
            starknet,
            allow_warnings,
            run_config(filter, include_ignored, ignored, gas_disabled, print_resource_usage),
        ),
    ensures
        session.runner.config.filter@ == filter,
        session.runner.config.include_ignored == include_ignored,
        session.runner.config.ignored == ignored,
        session.runner.config.gas_enabled == !gas_disabled,
        session.runner.config.print_resource_usage == print_resource_usage,
        session.runner.config.profiler_config is None,
        session.runner.custom_hint_processor_factory is None,
        session.runner.compiler.allow_warnings == allow_warnings,
        session.runner.compiler.db@ == database,
        session.runner.compiler.db.auto_withdraw_gas == database.auto_withdraw_gas,
        session.runner.compiler.db.plugin_suites@ == database.plugin_suites,
        session.runner.compiler.main_crate_ids@.len() == 1,
        session.runner.compiler.main_crate_ids@[0].name@ == name,
        session.runner.compiler.main_crate_ids@[0].discriminator is None,
        session.runner.compiler.test_crate_ids@.len() == 1,
        session.runner.compiler.test_crate_ids@[0].name@ == name,
        session.runner.compiler.test_crate_ids@[0].discriminator is None,
        session.runner.compiler.config.starknet == starknet,
        session.runner.compiler.config.contract_declarations is None,
        session.runner.compiler.config.contract_crate_ids is None,
        session.runner.compiler.config.executable_crate_ids is None,
        !session.runner.compiler.config.add_statements_functions,
        !session.runner.compiler.config.add_statements_code_locations,
        !session.runner.compiler.config.add_functions_debug_info,
        !session.runner.compiler.config.replace_ids,
        session.stage is BuildDatabase,
{
    let compiler = session.runner.compiler;
    assert(crate_views(compiler.main_crate_ids@).len() == compiler.main_crate_ids@.len());
    assert(crate_views(compiler.main_crate_ids@)[0] == compiler.main_crate_ids@[0]@);
    assert(crate_views(compiler.test_crate_ids@).len() == compiler.test_crate_ids@.len());
    assert(crate_views(compiler.test_crate_ids@)[0] == compiler.test_crate_ids@[0]@);
}

/// A runner for tests keeps the configuration of the caller, in every field, and has the compiler
/// tell the functions of statements apart if and only if there is a profiler that asks for it.
pub proof fn law_runner_compiles_what_the_profiler_needs(
    runner: TestRunner,
    database: RootDatabaseView,
    name: Seq<char>,
    starknet: bool,
    allow_warnings: bool,
    config: TestRunConfig,
)
    requires
        runner.runs(database, plain_crate(name), starknet, allow_warnings, config@),
    ensures
        runner.config.filter@ == config.filter@,
        runner.config.include_ignored == config.include_ignored,
        runner.config.ignored == config.ignored,
        runner.config.profiler_config == config.profiler_config,
        runner.config.gas_enabled == config.gas_enabled,
        runner.config.print_resource_usage == config.print_resource_usage,
        runner.custom_hint_processor_factory is None,
        runner.compiler.db@ == database,
        runner.compiler.allow_warnings == allow_warnings,
        runner.compiler.config.starknet == starknet,
        runner.compiler.config.contract_declarations is None,
        runner.compiler.config.contract_crate_ids is None,
        runner.compiler.config.executable_crate_ids is None,
        config.profiler_config is None ==> !runner.compiler.config.add_statements_functions,
        config.profiler_config matches Some(profiler)
            ==> runner.compiler.config.add_statements_functions
            == profiler.requires_cairo_debug_info,
        !runner.compiler.config.add_statements_code_locations,
        !runner.compiler.config.add_functions_debug_info,
        !runner.compiler.config.replace_ids,
{
}

/// A compiler for tests compiles one crate and runs all of its tests, in the database that was made
/// for it.
pub proof fn law_compiler_tests_the_crate_that_it_compiles(
    compiler: TestCompiler,
    database: RootDatabaseView,
    name: Seq<char>,
    allow_warnings: bool,
)
    requires
        compiler.compiles(database, plain_crate(name), allow_warnings),
    ensures
        compiler.db.well_formed(),
        compiler.db@ == database,
        compiler.allow_warnings == allow_warnings,
        compiler.main_crate_ids@.len() == 1,
        compiler.main_crate_ids@[0].name@ == name,
        compiler.main_crate_ids@[0].discriminator is None,
        compiler.test_crate_ids@.len() == 1,
        compiler.test_crate_ids@[0].name@ == name,
        compiler.test_crate_ids@[0].discriminator is None,
{
    assert(crate_views(compiler.main_crate_ids@).len() == compiler.main_crate_ids@.len());
    assert(crate_views(compiler.main_crate_ids@)[0] == compiler.main_crate_ids@[0]@);
    assert(crate_views(compiler.test_crate_ids@).len() == compiler.test_crate_ids@.len());
    assert(crate_views(compiler.test_crate_ids@)[0] == compiler.test_crate_ids@[0]@);
}

} // verus!
