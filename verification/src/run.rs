//! Running a project: compile it to Sierra, find its `main` function and execute it.
use vstd::prelude::*;

use cairo_lang_sierra::program::Program;

use crate::database::{
    crate_views, empty_database, init_corelib, plain_crate, with_corelib, CrateInput,
    CrateInputView, RootDatabase, RootDatabaseView,
};
use crate::directory::file_texts;
use crate::embedded::EmbeddedDir;
use crate::error::{text_result, Error, ErrorView};
use crate::number::{decimal, hexadecimal, Felt252};
use crate::project::{
    dependency_views, lemma_astro_parent, may_be_parent, setup_project_with_input_string,
    setup_virtual_project, setup_virtual_project_with_deps, single_file_crate,
    with_single_file_project, with_virtual_project, with_virtual_project_and_deps, DependencyInput,
};
use crate::text::{followed_by, join, joined, texts};

verus! {

/// What a program that ran to its end left behind.
#[derive(Debug)]
pub enum RunResultValue {
    /// The values that the program returned.
    Success(Vec<Felt252>),
    /// The panic data, one text for each item of it, strings among them in quotes.
    Panic(Vec<String>),
}

/// The outcome of a run.
#[derive(Debug)]
pub struct RunResultStarknet {
    pub value: RunResultValue,
    /// The gas that is left, where gas was counted.
    pub gas_counter: Option<Felt252>,
    /// The cells of the memory. Not every cell has a value.
    pub memory: Vec<Option<Felt252>>,
}

/// Values in base 16, in brackets.
pub open spec fn value_list(values: Seq<Felt252>) -> Seq<char> {
    "["@ + joined(values.map_values(|v: Felt252| hexadecimal(v.value())), ", "@) + "]"@
}

/// The line that tells how a program ended.
pub open spec fn value_log(value: RunResultValue) -> Seq<char> {
    match value {
        RunResultValue::Success(values) => "Run completed successfully, returning "@ + value_list(
            values@,
        ) + "\n"@,
        RunResultValue::Panic(items) => "Run panicked with ["@ + joined(texts(items@), ", "@)
            + "].\n"@,
    }
}

/// The line that tells how much gas is left, where gas was counted.
pub open spec fn gas_log(gas_counter: Option<Felt252>) -> Seq<char> {
    match gas_counter {
        Some(gas) => "Remaining gas: "@ + decimal(gas.value()) + "\n"@,
        None => Seq::empty(),
    }
}

/// One cell of the memory: its value, or a mark that it has none.
pub open spec fn cell_log(cell: Option<Felt252>) -> Seq<char> {
    match cell {
        Some(value) => decimal(value.value()) + ", "@,
        None => "_, "@,
    }
}

/// The cells of the memory, one after the other.
pub open spec fn cells_log(memory: Seq<Option<Felt252>>) -> Seq<char>
    decreases memory.len(),
{
    if memory.len() == 0 {
        Seq::empty()
    } else {
        cells_log(memory.drop_last()) + cell_log(memory.last())
    }
}

/// The line that shows the memory, where it is asked for.
pub open spec fn memory_log(memory: Seq<Option<Felt252>>, print_full_memory: bool) -> Seq<char> {
    if print_full_memory {
        "Full memory: ["@ + cells_log(memory) + "]\n"@
    } else {
        Seq::empty()
    }
}

/// The log of a run.
pub open spec fn run_log(result: RunResultStarknet, print_full_memory: bool) -> Seq<char> {
    value_log(result.value) + gas_log(result.gas_counter) + memory_log(
        result.memory@,
        print_full_memory,
    )
}

/// The texts of values in base 16.
fn hexadecimal_texts(values: &Vec<Felt252>) -> (items: Vec<String>)
    ensures
        texts(items@) == values@.map_values(|v: Felt252| hexadecimal(v.value())),
{
    let mut items: Vec<String> = Vec::new();
    let mut i: usize = 0;
    while i < values.len()
        invariant
            i <= values.len(),
            items.len() == i,
            forall|k: int| 0 <= k < i ==> (#[trigger] items@[k])@ == hexadecimal(values@[k].value()),
        decreases values.len() - i,
    {
        items.push(values[i].to_hexadecimal());
        i = i + 1;
    }
    assert(texts(items@) =~= values@.map_values(|v: Felt252| hexadecimal(v.value())));
    items
}

/// Writes the log of a run. The printing of debug output is up to the run itself.
pub fn generate_run_result_log(
    result: &RunResultStarknet,
    print_full_memory: bool,
    _use_dbg_print_hint: bool,
) -> (log: Result<String, Error>)
    ensures
        text_result(log) == Ok::<Seq<char>, ErrorView>(run_log(*result, print_full_memory)),
{
    let mut log = String::new();
    match &result.value {
        RunResultValue::Success(values) => {
            log.append("Run completed successfully, returning ");
            let items = hexadecimal_texts(values);
            let list = join(&items, ", ");
            log.append("[");
            log.append(list.as_str());
            log.append("]");
            log.append("\n");
        },
        RunResultValue::Panic(items) => {
            log.append("Run panicked with [");
            let list = join(items, ", ");
            log.append(list.as_str());
            log.append("].\n");
        },
    }
    assert(log@ =~= value_log(result.value));
    match &result.gas_counter {
        Some(gas) => {
            let amount = gas.to_decimal();
            log.append("Remaining gas: ");
            log.append(amount.as_str());
            log.append("\n");
        },
        None => {},
    }
    assert(log@ =~= value_log(result.value) + gas_log(result.gas_counter));
    if print_full_memory {
        let ghost head = log@;
        log.append("Full memory: [");
        let mut i: usize = 0;
        assert(log@ =~= head + "Full memory: ["@ + cells_log(result.memory@.take(0)));
        while i < result.memory.len()
            invariant
                i <= result.memory.len(),
                log@ == head + "Full memory: ["@ + cells_log(result.memory@.take(i as int)),
            decreases result.memory.len() - i,
        {
            let ghost before = log@;
            match &result.memory[i] {
                None => {
                    log.append("_, ");
                },
                Some(value) => {
                    let text = value.to_decimal();
                    log.append(text.as_str());
                    log.append(", ");
                },
            }
            proof {
                let seen = result.memory@.take(i + 1);
                assert(seen.drop_last() =~= result.memory@.take(i as int));
                assert(log@ =~= before + cell_log(result.memory@[i as int]));
                assert(log@ =~= head + "Full memory: ["@ + cells_log(seen));
            }
            i = i + 1;
        }
        assert(result.memory@.take(i as int) =~= result.memory@);
        log.append("]\n");
        assert(log@ =~= head + memory_log(result.memory@, true));
    }
    assert(log@ =~= run_log(*result, print_full_memory));
    Ok(log)
}

/// `cairo_lang_sierra::program::Program`: a Sierra program.
#[verifier::external_type_specification]
#[verifier::external_body]
pub struct ExProgram(Program);

/// The generic names of the library functions that a program declares, in order.
pub uninterp spec fn libfunc_names(program: Program) -> Seq<Seq<char>>;

/// The library function takes gas from the counter, or gives some back.
pub open spec fn moves_gas(name: Seq<char>) -> bool {
    name == "withdraw_gas"@ || name == "withdraw_gas_all"@ || name == "redeposit_gas"@
}

/// Some library function moves gas.
pub open spec fn some_moves_gas(names: Seq<Seq<char>>) -> bool {
    exists|i: int| 0 <= i < names.len() && moves_gas(#[trigger] names[i])
}

/// `cairo_lang_sierra::program::Program::requires_gas_counter`: whether the program declares a
/// library function that withdraws gas, with or without other costs, or gives some back.
#[verifier::external_body]
fn requires_gas_counter(program: &Program) -> (required: bool)
    ensures
        required == some_moves_gas(libfunc_names(*program)),
{
    program.requires_gas_counter()
}

/// Fails if gas is counted and none was given.
pub fn check_gas(available_gas: Option<usize>, counts_gas: bool) -> (result: Result<(), Error>)
    ensures
        result is Err <==> available_gas is None && counts_gas,
        result matches Err(error) ==> error@ == ErrorView::GasCounterRequired,
{
    if available_gas.is_none() && counts_gas {
        Err(Error::GasCounterRequired)
    } else {
        Ok(())
    }
}

/// What is known of the Starknet network when a program starts.
#[derive(Debug)]
pub struct StarknetState {
    /// The addresses of deployed contracts, each with the hash of its class.
    pub deployed_contracts: Vec<(Felt252, Felt252)>,
    /// The storage: addresses, keys and values.
    pub storage: Vec<(Felt252, Felt252, Felt252)>,
}

/// The state that a program starts in: nothing is deployed, and nothing is stored.
pub fn initial_state() -> (state: StarknetState)
    ensures
        state.deployed_contracts@ == Seq::<(Felt252, Felt252)>::empty(),
        state.storage@ == Seq::<(Felt252, Felt252, Felt252)>::empty(),
{
    StarknetState { deployed_contracts: Vec::new(), storage: Vec::new() }
}

/// The arguments that the main function is called with: none.
pub fn main_arguments() -> (arguments: Vec<Felt252>)
    ensures
        arguments@ == Seq::<Felt252>::empty(),
{
    Vec::new()
}

/// What a run is asked to do.
#[derive(Clone, Copy, Debug)]
pub struct RunOptions {
    pub available_gas: Option<usize>,
    pub allow_warnings: bool,
    pub print_full_memory: bool,
    pub run_profiler: bool,
    pub use_dbg_print_hint: bool,
}

/// How far a run has come. A program is held until there is a runner for it.
#[derive(Debug)]
pub enum RunStage {
    BuildDatabase,
    CheckDiagnostics,
    GenerateSierra,
    CollectContracts { program: Program },
    CreateRunner { program: Program },
    FindMain,
    Execute,
    Finished(Result<String, Error>),
}

/// What a [`RunStage`] holds.
pub enum RunStageView {
    BuildDatabase,
    CheckDiagnostics,
    GenerateSierra,
    CollectContracts { program: Program },
    CreateRunner { program: Program },
    FindMain,
    Execute,
    Finished(Result<Seq<char>, ErrorView>),
}

impl View for RunStage {
    type V = RunStageView;

    open spec fn view(&self) -> RunStageView {
        match *self {
            RunStage::BuildDatabase => RunStageView::BuildDatabase,
            RunStage::CheckDiagnostics => RunStageView::CheckDiagnostics,
            RunStage::GenerateSierra => RunStageView::GenerateSierra,
            RunStage::CollectContracts { program } => RunStageView::CollectContracts { program },
            RunStage::CreateRunner { program } => RunStageView::CreateRunner { program },
            RunStage::FindMain => RunStageView::FindMain,
            RunStage::Execute => RunStageView::Execute,
            RunStage::Finished(result) => RunStageView::Finished(text_result(result)),
        }
    }
}

/// What is to be done next.
#[derive(Clone, Copy, Debug, PartialEq, Eq)]
pub enum RunAction {
    /// Build the database that the session describes.
    BuildDatabase,
    /// Collect the diagnostics of the main crates.
    CheckDiagnostics { allow_warnings: bool },
    /// Compile the main crates to a Sierra program.
    GenerateSierra,
    /// Collect what is known of the contracts in the main crates.
    CollectContracts,
    /// Create a runner for the program that the session holds.
    CreateRunner { with_gas_metadata: bool, with_profiling: bool },
    /// Find the function whose name ends as [`main_function_suffix`] says.
    FindMain,
    /// Call that function with the arguments of [`main_arguments`], in the state of
    /// [`initial_state`].
    Execute { available_gas: Option<usize> },
    /// Nothing: the run is over.
    Nothing,
}

/// What came of an action. A failure is told by the message of its error.
#[derive(Debug)]
pub enum RunEvent {
    DatabaseBuilt(Result<(), String>),
    DiagnosticsChecked { found: bool, diagnostics: String },
    /// The program, if there is one, with the names of its functions made readable.
    SierraGenerated { program: Option<Program> },
    ContractsCollected(Result<(), String>),
    RunnerCreated(Result<(), String>),
    MainFound(Result<(), String>),
    Executed(Result<RunResultStarknet, String>),
}

/// The end of a run that a step outside this library put an end to.
pub open spec fn run_failed(message: String) -> RunStageView {
    RunStageView::Finished(Err(ErrorView::Outside { message: message@ }))
}

/// What is done next at a stage.
pub open spec fn run_action(stage: RunStageView, options: RunOptions) -> RunAction {
    match stage {
        RunStageView::BuildDatabase => RunAction::BuildDatabase,
        RunStageView::CheckDiagnostics => RunAction::CheckDiagnostics {
            allow_warnings: options.allow_warnings,
        },
        RunStageView::GenerateSierra => RunAction::GenerateSierra,
        RunStageView::CollectContracts { program: _ } => RunAction::CollectContracts,
        RunStageView::CreateRunner { program: _ } => RunAction::CreateRunner {
            with_gas_metadata: options.available_gas is Some,
            with_profiling: options.run_profiler,
        },
        RunStageView::FindMain => RunAction::FindMain,
        RunStageView::Execute => RunAction::Execute { available_gas: options.available_gas },
        RunStageView::Finished(_) => RunAction::Nothing,
    }
}

/// The program that a stage holds.
pub open spec fn program_held(stage: RunStageView) -> Option<Program> {
    match stage {
        RunStageView::CollectContracts { program } => Some(program),
        RunStageView::CreateRunner { program } => Some(program),
        _ => None,
    }
}

/// The stage that follows an event, if the event is one that the stage waits for.
pub open spec fn run_next(
    stage: RunStageView,
    options: RunOptions,
    event: RunEvent,
) -> Option<RunStageView> {
    match (stage, event) {
        (RunStageView::BuildDatabase, RunEvent::DatabaseBuilt(built)) => match built {
            Ok(_) => Some(RunStageView::CheckDiagnostics),
            Err(message) => Some(run_failed(message)),
        },
        (
            RunStageView::CheckDiagnostics,
            RunEvent::DiagnosticsChecked { found, diagnostics },
        ) => if found {
            Some(
                RunStageView::Finished(
                    Err(
                        ErrorView::FailedToCompile {
                            message: "failed to compile:\n "@ + diagnostics@,
                        },
                    ),
                ),
            )
        } else {
            Some(RunStageView::GenerateSierra)
        },
        (RunStageView::GenerateSierra, RunEvent::SierraGenerated { program }) => match program {
            None => Some(RunStageView::Finished(Err(ErrorView::NoSierraProgram))),
            Some(program) => if options.available_gas is None && some_moves_gas(
                libfunc_names(program),
            ) {
                Some(RunStageView::Finished(Err(ErrorView::GasCounterRequired)))
            } else {
                Some(RunStageView::CollectContracts { program })
            },
        },
        (
            RunStageView::CollectContracts { program },
            RunEvent::ContractsCollected(collected),
        ) => match collected {
            Ok(_) => Some(RunStageView::CreateRunner { program }),
            Err(message) => Some(run_failed(message)),
        },
        (RunStageView::CreateRunner { program: _ }, RunEvent::RunnerCreated(created)) => match created {
            Ok(_) => Some(RunStageView::FindMain),
            Err(message) => Some(run_failed(message)),
        },
        (RunStageView::FindMain, RunEvent::MainFound(found)) => match found {
            Ok(_) => Some(RunStageView::Execute),
            Err(message) => Some(run_failed(message)),
        },
        (RunStageView::Execute, RunEvent::Executed(executed)) => match executed {
            Ok(result) => Some(
                RunStageView::Finished(Ok(run_log(result, options.print_full_memory))),
            ),
            Err(message) => Some(run_failed(message)),
        },
        _ => None,
    }
}

/// How the name of the function ends that a run calls.
pub fn main_function_suffix() -> (suffix: &'static str)
    ensures
        suffix@ == "::main"@,
{
    "::main"
}

/// A run: the project that is run, what it is asked to do, and how far it has come.
#[derive(Debug)]
pub struct RunSession {
    pub database: RootDatabase,
    pub main_crates: Vec<CrateInput>,
    pub options: RunOptions,
    pub stage: RunStage,
}

/// A run that has just begun.
pub open spec fn begins(
    session: RunSession,
    database: RootDatabaseView,
    main_crate: CrateInputView,
    options: RunOptions,
) -> bool {
    &&& session.database.well_formed()
    &&& session.database@ == database
    &&& crate_views(session.main_crates@) == seq![main_crate]
    &&& session.options == options
    &&& session.stage@ == RunStageView::BuildDatabase
}

impl RunSession {
    /// What is to be done next.
    pub fn action(&self) -> (action: RunAction)
        ensures
            action == run_action(self.stage@, self.options),
            self.stage is CheckDiagnostics ==> action == (RunAction::CheckDiagnostics {
                allow_warnings: self.options.allow_warnings,
            }),
            self.stage is CreateRunner ==> action == (RunAction::CreateRunner {
                with_gas_metadata: self.options.available_gas is Some,
                with_profiling: self.options.run_profiler,
            }),
            self.stage is Execute ==> action == (RunAction::Execute {
                available_gas: self.options.available_gas,
            }),
    {
        match &self.stage {
            RunStage::BuildDatabase => RunAction::BuildDatabase,
            RunStage::CheckDiagnostics => RunAction::CheckDiagnostics {
                allow_warnings: self.options.allow_warnings,
            },
            RunStage::GenerateSierra => RunAction::GenerateSierra,
            RunStage::CollectContracts { program: _ } => RunAction::CollectContracts,
            RunStage::CreateRunner { program: _ } => RunAction::CreateRunner {
                with_gas_metadata: self.options.available_gas.is_some(),
                with_profiling: self.options.run_profiler,
            },
            RunStage::FindMain => RunAction::FindMain,
            RunStage::Execute => RunAction::Execute { available_gas: self.options.available_gas },
            RunStage::Finished(_) => RunAction::Nothing,
        }
    }

    /// The program that the session holds: the one that was generated, until there is a runner.
    pub fn program(&self) -> (program: Option<&Program>)
        ensures
            (match program {
                Some(program) => Some(*program),
                None => None,
            }) == program_held(self.stage@),
    {
        match &self.stage {
            RunStage::CollectContracts { program } => Some(program),
            RunStage::CreateRunner { program } => Some(program),
            _ => None,
        }
    }

    /// Takes note of what came of the last action. An event that the run does not wait for is not
    /// taken, and changes nothing.
    pub fn advance(&mut self, event: RunEvent) -> (taken: bool)
        ensures
            taken <==> run_next(old(self).stage@, old(self).options, event) is Some,
            taken ==> final(self).stage@ == run_next(
                old(self).stage@,
                old(self).options,
                event,
            )->0,
            !taken ==> final(self).stage == old(self).stage,
            final(self).database == old(self).database,
            final(self).main_crates == old(self).main_crates,
            final(self).options == old(self).options,
    {
        let options = self.options;
        let mut stage = RunStage::BuildDatabase;
        std::mem::swap(&mut self.stage, &mut stage);
        let next = match (stage, event) {
            (RunStage::BuildDatabase, RunEvent::DatabaseBuilt(built)) => match built {
                Ok(_) => RunStage::CheckDiagnostics,
                Err(message) => RunStage::Finished(Err(Error::Outside { message })),
            },
            (
                RunStage::CheckDiagnostics,
                RunEvent::DiagnosticsChecked { found, diagnostics },
            ) => if found {
                let message = followed_by("failed to compile:\n ", diagnostics.as_str());
                RunStage::Finished(Err(Error::FailedToCompile { message }))
            } else {
                RunStage::GenerateSierra
            },
            (RunStage::GenerateSierra, RunEvent::SierraGenerated { program }) => match program {
                None => RunStage::Finished(Err(Error::NoSierraProgram)),
                Some(program) => match check_gas(
                    options.available_gas,
                    requires_gas_counter(&program),
                ) {
                    Ok(_) => RunStage::CollectContracts { program },
                    Err(error) => RunStage::Finished(Err(error)),
                },
            },
            (
                RunStage::CollectContracts { program },
                RunEvent::ContractsCollected(collected),
            ) => match collected {
                Ok(_) => RunStage::CreateRunner { program },
                Err(message) => RunStage::Finished(Err(Error::Outside { message })),
            },
            (RunStage::CreateRunner { program: _ }, RunEvent::RunnerCreated(created)) => match created {
                Ok(_) => RunStage::FindMain,
                Err(message) => RunStage::Finished(Err(Error::Outside { message })),
            },
            (RunStage::FindMain, RunEvent::MainFound(found)) => match found {
                Ok(_) => RunStage::Execute,
                Err(message) => RunStage::Finished(Err(Error::Outside { message })),
            },
            (RunStage::Execute, RunEvent::Executed(executed)) => match executed {
                Ok(result) => RunStage::Finished(
                    generate_run_result_log(
                        &result,
                        options.print_full_memory,
                        options.use_dbg_print_hint,
                    ),
                ),
                Err(message) => RunStage::Finished(Err(Error::Outside { message })),
            },
            (other, _) => {
                self.stage = other;
                return false;
            },
        };
        self.stage = next;
        true
    }
}

/// A run of a project that is registered in a database.
pub fn run_prepared_project(
    database: RootDatabase,
    main_crates: Vec<CrateInput>,
    available_gas: Option<usize>,
    allow_warnings: bool,
    print_full_memory: bool,
    run_profiler: bool,
    use_dbg_print_hint: bool,
) -> (session: RunSession)
    ensures
        session.database == database,
        session.main_crates == main_crates,
        session.options == (RunOptions {
            available_gas,
            allow_warnings,
            print_full_memory,
            run_profiler,
            use_dbg_print_hint,
        }),
        session.stage@ == RunStageView::BuildDatabase,
{
    RunSession {
        database,
        main_crates,
        options: RunOptions {
            available_gas,
            allow_warnings,
            print_full_memory,
            run_profiler,
            use_dbg_print_hint,
        },
        stage: RunStage::BuildDatabase,
    }
}

/// The database that a run starts from: gas withdrawals are added if there is gas to withdraw.
pub open spec fn run_database(
    available_gas: Option<usize>,
    corelib: EmbeddedDir,
) -> RootDatabaseView {
    with_corelib(
        RootDatabaseView { auto_withdraw_gas: available_gas is Some, ..empty_database() },
        corelib,
    )
}

/// The database that a run starts from.
fn new_run_database(available_gas: Option<usize>, corelib: &EmbeddedDir) -> (db: RootDatabase)
    requires
        corelib.is_text(),
    ensures
        db.well_formed(),
        db@ == run_database(available_gas, *corelib),
{
    let mut db = RootDatabase::new();
    if available_gas.is_none() {
        db.skip_auto_withdraw_gas();
    }
    init_corelib(&mut db, corelib);
    db
}

/// Begins a run of a program that is a single text.
pub fn run_with_input_program_string(
    input_program_string: &str,
    available_gas: Option<usize>,
    allow_warnings: bool,
    print_full_memory: bool,
    run_profiler: bool,
    use_dbg_print_hint: bool,
    corelib: &EmbeddedDir,
) -> (session: Result<RunSession, Error>)
    requires
        corelib.is_text(),
    ensures
        session matches Ok(session) && begins(
            session,
            with_single_file_project(
                run_database(available_gas, *corelib),
                Some(Seq::empty()),
                input_program_string@,
            ),
            plain_crate(single_file_crate()),
            (RunOptions {
                available_gas,
                allow_warnings,
                print_full_memory,
                run_profiler,
                use_dbg_print_hint,
            }),
        ),
        session->Ok_0.options.available_gas == available_gas,
        session->Ok_0.options.allow_warnings == allow_warnings,
        session->Ok_0.options.print_full_memory == print_full_memory,
        session->Ok_0.options.run_profiler == run_profiler,
        session->Ok_0.options.use_dbg_print_hint == use_dbg_print_hint,
        session->Ok_0.database.auto_withdraw_gas == available_gas is Some,
{
    let mut db = new_run_database(available_gas, corelib);
    let ghost before = db@;
    match setup_project_with_input_string(&mut db, "astro.cairo", input_program_string) {
        Ok(main_crates) => {
            proof {
                let parent = choose|parent: Option<Seq<char>>| #[trigger]
                    may_be_parent("astro.cairo"@, parent) && db@ == with_single_file_project(
                        before,
                        parent,
                        input_program_string@,
                    );
                lemma_astro_parent(parent);
            }
            Ok(
                run_prepared_project(
                    db,
                    main_crates,
                    available_gas,
                    allow_warnings,
                    print_full_memory,
                    run_profiler,
                    use_dbg_print_hint,
                ),
            )
        },
        Err(error) => Err(error),
    }
}

/// Begins a run of a project that is a set of files.
pub fn run_with_virtual_project(
    project_name: &str,
    files: &Vec<(String, String)>,
    available_gas: Option<usize>,
    allow_warnings: bool,
    print_full_memory: bool,
    run_profiler: bool,
    use_dbg_print_hint: bool,
    corelib: &EmbeddedDir,
) -> (session: Result<RunSession, Error>)
    requires
        corelib.is_text(),
    ensures
        session matches Ok(session) && begins(
            session,
            with_virtual_project(
                run_database(available_gas, *corelib),
                project_name@,
                file_texts(files@),
            ),
            plain_crate(project_name@),
            (RunOptions {
                available_gas,
                allow_warnings,
                print_full_memory,
                run_profiler,
                use_dbg_print_hint,
            }),
        ),
        session->Ok_0.options.available_gas == available_gas,
        session->Ok_0.options.allow_warnings == allow_warnings,
        session->Ok_0.options.print_full_memory == print_full_memory,
        session->Ok_0.options.run_profiler == run_profiler,
        session->Ok_0.options.use_dbg_print_hint == use_dbg_print_hint,
        session->Ok_0.database.auto_withdraw_gas == available_gas is Some,
{
    let mut db = new_run_database(available_gas, corelib);
    let main_crates = setup_virtual_project(&mut db, project_name, files);
    Ok(
        run_prepared_project(
            db,
            main_crates,
            available_gas,
            allow_warnings,
            print_full_memory,
            run_profiler,
            use_dbg_print_hint,
        ),
    )
}

/// Begins a run of a project that is a set of files and depends on other crates.
pub fn run_with_virtual_project_and_deps(
    project_name: &str,
    files: &Vec<(String, String)>,
    dependencies: &Vec<(String, DependencyInput)>,
    available_gas: Option<usize>,
    allow_warnings: bool,
    print_full_memory: bool,
    run_profiler: bool,
    use_dbg_print_hint: bool,
    corelib: &EmbeddedDir,
) -> (session: Result<RunSession, Error>)
    requires
        corelib.is_text(),
    ensures
        session matches Ok(session) && begins(
            session,
            with_virtual_project_and_deps(
                run_database(available_gas, *corelib),
                project_name@,
                file_texts(files@),
                dependency_views(dependencies@),
            ),
            plain_crate(project_name@),
            (RunOptions {
                available_gas,
                allow_warnings,
                print_full_memory,
                run_profiler,
                use_dbg_print_hint,
            }),
        ),
        session->Ok_0.options.available_gas == available_gas,
        session->Ok_0.options.allow_warnings == allow_warnings,
        session->Ok_0.options.print_full_memory == print_full_memory,
        session->Ok_0.options.run_profiler == run_profiler,
        session->Ok_0.options.use_dbg_print_hint == use_dbg_print_hint,
        session->Ok_0.database.auto_withdraw_gas == available_gas is Some,
{
    let mut db = new_run_database(available_gas, corelib);
    let main_crates = setup_virtual_project_with_deps(&mut db, project_name, files, dependencies);
    Ok(
        run_prepared_project(
            db,
            main_crates,
            available_gas,
            allow_warnings,
            print_full_memory,
            run_profiler,
            use_dbg_print_hint,
        ),
    )
}

} // verus!
