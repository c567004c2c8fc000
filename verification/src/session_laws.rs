//! What is done at each step of a run, a compilation or a test run, and with which settings: those
//! that the caller asked for.
use vstd::prelude::*;

use cairo_lang_sierra::program::Program;
use cairo_lang_starknet_classes::casm_contract_class::CasmContractClass;
use cairo_lang_starknet_classes::contract_class::{ContractClass, ExtractedSierraProgram};

use crate::compile::{compile_action, CompileAction, CompileEvent, CompileStageView};
use crate::error::ErrorView;
use crate::log_laws::law_three_functions_move_gas;
use crate::run::{
    self, libfunc_names, run_action, run_log, RunAction, RunEvent, RunOptions, RunResultStarknet,
    RunStageView,
};
use crate::starknet::{
    self, casm_json, class_json, class_text, extracted_program, json_object, json_text,
    starknet_action, StarknetAction, StarknetEvent, StarknetOptionsView, StarknetStageView,
};
use crate::test_runner::{test_action, TestAction, TestEvent, TestStageView, TestsSummary};
use crate::traces::{compile_after, run_after, starknet_after, test_after};

verus! {

/// The events of a run in which every step goes well.
pub open spec fn good_run(
    diagnostics: String,
    program: Program,
    result: RunResultStarknet,
) -> Seq<RunEvent> {
    seq![
        RunEvent::DatabaseBuilt(Ok(())),
        RunEvent::DiagnosticsChecked { found: false, diagnostics },
        RunEvent::SierraGenerated { program: Some(program) },
        RunEvent::ContractsCollected(Ok(())),
        RunEvent::RunnerCreated(Ok(())),
        RunEvent::MainFound(Ok(())),
        RunEvent::Executed(Ok(result)),
    ]
}

/// The program counts gas.
pub open spec fn counts_gas(program: Program) -> bool {
    ||| libfunc_names(program).contains("withdraw_gas"@)
    ||| libfunc_names(program).contains("withdraw_gas_all"@)
    ||| libfunc_names(program).contains("redeposit_gas"@)
}

/// Where a run stands while every step of it goes well.
proof fn lemma_good_run(
    options: RunOptions,
    diagnostics: String,
    program: Program,
    result: RunResultStarknet,
)
    requires
        options.available_gas is Some || !counts_gas(program),
    ensures
        ({
            let events = good_run(diagnostics, program, result);
            &&& run_after(options, events.take(0)) == Some(RunStageView::BuildDatabase)
            &&& run_after(options, events.take(1)) == Some(RunStageView::CheckDiagnostics)
            &&& run_after(options, events.take(2)) == Some(RunStageView::GenerateSierra)
            &&& run_after(options, events.take(3)) == Some(
                RunStageView::CollectContracts { program },
            )
            &&& run_after(options, events.take(4)) == Some(RunStageView::CreateRunner { program })
            &&& run_after(options, events.take(5)) == Some(RunStageView::FindMain)
            &&& run_after(options, events.take(6)) == Some(RunStageView::Execute)
            &&& run_after(options, events) == Some(
                RunStageView::Finished(Ok(run_log(result, options.print_full_memory))),
            )
        }),
{
    let events = good_run(diagnostics, program, result);
    law_three_functions_move_gas(libfunc_names(program));
    assert(events.take(1).drop_last() =~= events.take(0));
    assert(events.take(2).drop_last() =~= events.take(1));
    assert(events.take(3).drop_last() =~= events.take(2));
    assert(events.take(4).drop_last() =~= events.take(3));
    assert(events.take(5).drop_last() =~= events.take(4));
    assert(events.take(6).drop_last() =~= events.take(5));
    assert(events.drop_last() =~= events.take(6));
}

/// Once its database was built, a run checks the diagnostics, and allows warnings if and only if
/// the caller does. No other step of a run checks diagnostics in any other way.
pub proof fn law_run_allows_warnings_if_the_caller_does(
    options: RunOptions,
    events: Seq<RunEvent>,
)
    ensures
        events == seq![RunEvent::DatabaseBuilt(Ok(()))] ==> run_after(options, events) is Some
            && run_action(run_after(options, events)->0, options) == (RunAction::CheckDiagnostics {
            allow_warnings: options.allow_warnings,
        }),
        run_after(options, events) matches Some(stage) ==> (run_action(
            stage,
            options,
        ) matches RunAction::CheckDiagnostics { allow_warnings } ==> allow_warnings
            == options.allow_warnings),
{
    if events == seq![RunEvent::DatabaseBuilt(Ok(()))] {
        assert(events.drop_last() =~= Seq::empty());
        assert(run_after(options, events.drop_last()) == Some(RunStageView::BuildDatabase));
    }
}

/// While every step goes well, a run goes through all of its actions in order, each with the
/// settings that the caller asked for: the runner counts gas if gas was given, and profiles if it is
/// asked to, and the main function gets the gas that was given. It ends in the log of the run.
pub proof fn law_run_does_what_the_caller_asks(
    options: RunOptions,
    diagnostics: String,
    program: Program,
    result: RunResultStarknet,
)
    requires
        options.available_gas is Some || !counts_gas(program),
    ensures
        ({
            let events = good_run(diagnostics, program, result);
            &&& run_action(run_after(options, events.take(0))->0, options)
                == RunAction::BuildDatabase
            &&& run_action(run_after(options, events.take(1))->0, options) == (
            RunAction::CheckDiagnostics { allow_warnings: options.allow_warnings })
            &&& run_action(run_after(options, events.take(2))->0, options)
                == RunAction::GenerateSierra
            &&& run_action(run_after(options, events.take(3))->0, options)
                == RunAction::CollectContracts
            &&& run_action(run_after(options, events.take(4))->0, options) == (
            RunAction::CreateRunner {
                with_gas_metadata: options.available_gas is Some,
                with_profiling: options.run_profiler,
            })
            &&& run_action(run_after(options, events.take(5))->0, options) == RunAction::FindMain
            &&& run_action(run_after(options, events.take(6))->0, options) == (RunAction::Execute {
                available_gas: options.available_gas,
            })
            &&& run_after(options, events) == Some(
                RunStageView::Finished(Ok(run_log(result, options.print_full_memory))),
            )
            &&& run_action(run_after(options, events)->0, options) == RunAction::Nothing
            &&& run::program_held(run_after(options, events.take(3))->0) == Some(program)
            &&& run::program_held(run_after(options, events.take(4))->0) == Some(program)
        }),
{
    lemma_good_run(options, diagnostics, program, result);
}

/// The first step that fails ends a run, with the message of its error, whatever step it is; so do
/// diagnostics, a missing program, and a program that counts gas where none was given.
pub proof fn law_failure_ends_a_run(
    options: RunOptions,
    diagnostics: String,
    program: Program,
    result: RunResultStarknet,
    message: String,
    counting: Program,
)
    requires
        options.available_gas is Some || !counts_gas(program),
        counts_gas(counting),
    ensures
        ({
            let events = good_run(diagnostics, program, result);
            let failed = Some(
                RunStageView::Finished(Err(ErrorView::Outside { message: message@ })),
            );
            let found = RunEvent::DiagnosticsChecked { found: true, diagnostics: message };
            let refused = events.take(2).push(
                RunEvent::SierraGenerated { program: Some(counting) },
            );
            &&& run_after(options, events.take(0).push(RunEvent::DatabaseBuilt(Err(message))))
                == failed
            &&& run_after(options, events.take(1).push(found)) == Some(
                RunStageView::Finished(
                    Err(
                        ErrorView::FailedToCompile { message: "failed to compile:\n "@ + message@ },
                    ),
                ),
            )
            &&& run_after(
                options,
                events.take(2).push(RunEvent::SierraGenerated { program: None }),
            ) == Some(RunStageView::Finished(Err(ErrorView::NoSierraProgram)))
            &&& options.available_gas is None ==> run_after(options, refused) == Some(
                RunStageView::Finished(Err(ErrorView::GasCounterRequired)),
            )
            &&& run_after(options, events.take(3).push(RunEvent::ContractsCollected(Err(message))))
                == failed
            &&& run_after(options, events.take(4).push(RunEvent::RunnerCreated(Err(message))))
                == failed
            &&& run_after(options, events.take(5).push(RunEvent::MainFound(Err(message))))
                == failed
            &&& run_after(options, events.take(6).push(RunEvent::Executed(Err(message)))) == failed
        }),
{
    let events = good_run(diagnostics, program, result);
    lemma_good_run(options, diagnostics, program, result);
    law_three_functions_move_gas(libfunc_names(counting));
    let found = RunEvent::DiagnosticsChecked { found: true, diagnostics: message };
    let counted = RunEvent::SierraGenerated { program: Some(counting) };
    let missing = RunEvent::SierraGenerated { program: None };
    assert(events.take(0).push(RunEvent::DatabaseBuilt(Err(message))).drop_last() =~= events.take(
        0,
    ));
    assert(events.take(1).push(found).drop_last() =~= events.take(1));
    assert(events.take(2).push(missing).drop_last() =~= events.take(2));
    assert(events.take(2).push(counted).drop_last() =~= events.take(2));
    assert(events.take(3).push(RunEvent::ContractsCollected(Err(message))).drop_last()
        =~= events.take(3));
    assert(events.take(4).push(RunEvent::RunnerCreated(Err(message))).drop_last() =~= events.take(
        4,
    ));
    assert(events.take(5).push(RunEvent::MainFound(Err(message))).drop_last() =~= events.take(5));
    assert(events.take(6).push(RunEvent::Executed(Err(message))).drop_last() =~= events.take(6));
}

/// A run takes its events in one order only.
pub proof fn law_run_takes_its_events_in_order(options: RunOptions, events: Seq<RunEvent>)
    requires
        run_after(options, events) is Some,
    ensures
        events.len() <= 7,
        events.len() > 0 ==> events[0] is DatabaseBuilt,
        events.len() > 1 ==> events[1] is DiagnosticsChecked,
        events.len() > 2 ==> events[2] is SierraGenerated,
        events.len() > 3 ==> events[3] is ContractsCollected,
        events.len() > 4 ==> events[4] is RunnerCreated,
        events.len() > 5 ==> events[5] is MainFound,
        events.len() > 6 ==> events[6] is Executed,
        events.len() == 7 ==> run_after(options, events)->0 is Finished,
        match run_after(options, events)->0 {
            RunStageView::BuildDatabase => events.len() == 0,
            RunStageView::CheckDiagnostics => events.len() == 1,
            RunStageView::GenerateSierra => events.len() == 2,
            RunStageView::CollectContracts { program } => events.len() == 3 && events[2] == (
            RunEvent::SierraGenerated { program: Some(program) }),
            RunStageView::CreateRunner { program } => events.len() == 4 && events[2] == (
            RunEvent::SierraGenerated { program: Some(program) }),
            RunStageView::FindMain => events.len() == 5,
            RunStageView::Execute => events.len() == 6,
            RunStageView::Finished(_) => events.len() > 0,
        },
    decreases events.len(),
{
    if events.len() > 0 {
        law_run_takes_its_events_in_order(options, events.drop_last());
    }
}

/// The events of a compilation in which every step goes well.
pub open spec fn good_compilation<P>(diagnostics: String, program: P) -> Seq<CompileEvent<P>> {
    seq![
        CompileEvent::DatabaseBuilt(Ok(())),
        CompileEvent::DiagnosticsChecked { found: false, diagnostics },
        CompileEvent::ProgramCompiled(Ok(program)),
    ]
}

/// While every step goes well, a compilation builds its database, checks the diagnostics, warnings
/// among them, and compiles the program that it ends in. The first step that fails ends it.
pub proof fn law_compilation_checks_for_warnings<P>(
    diagnostics: String,
    program: P,
    message: String,
)
    ensures
        ({
            let events = good_compilation(diagnostics, program);
            let failed = Some(
                CompileStageView::<P>::Finished(Err(ErrorView::Outside { message: message@ })),
            );
            let found = CompileEvent::<P>::DiagnosticsChecked { found: true, diagnostics: message };
            &&& compile_after(events.take(0)) is Some
            &&& compile_action(compile_after(events.take(0))->0) == CompileAction::BuildDatabase
            &&& compile_after(events.take(1)) is Some
            &&& compile_action(compile_after(events.take(1))->0) == (
            CompileAction::CheckDiagnostics { allow_warnings: false })
            &&& compile_after(events.take(2)) is Some
            &&& compile_action(compile_after(events.take(2))->0) == CompileAction::CompileProgram
            &&& compile_after(events) == Some(CompileStageView::Finished(Ok(program)))
            &&& compile_action(compile_after(events)->0) == CompileAction::Nothing
            &&& compile_after(
                events.take(0).push(CompileEvent::<P>::DatabaseBuilt(Err(message))),
            ) == failed
            &&& compile_after(events.take(1).push(found)) == Some(
                CompileStageView::<P>::Finished(
                    Err(
                        ErrorView::FailedToCompile { message: "failed to compile:\n "@ + message@ },
                    ),
                ),
            )
            &&& compile_after(
                events.take(2).push(CompileEvent::<P>::ProgramCompiled(Err(message))),
            ) == failed
        }),
{
    let events = good_compilation(diagnostics, program);
    let found = CompileEvent::<P>::DiagnosticsChecked { found: true, diagnostics: message };
    assert(events.take(1).drop_last() =~= events.take(0));
    assert(events.take(2).drop_last() =~= events.take(1));
    assert(events.drop_last() =~= events.take(2));
    assert(compile_after(events.take(0)) == Some(CompileStageView::<P>::BuildDatabase));
    assert(compile_after(events.take(1)) == Some(CompileStageView::<P>::CheckDiagnostics));
    assert(compile_after(events.take(2)) == Some(CompileStageView::<P>::CompileProgram));
    assert(events.take(0).push(CompileEvent::<P>::DatabaseBuilt(Err(message))).drop_last()
        =~= events.take(0));
    assert(events.take(1).push(found).drop_last() =~= events.take(1));
    assert(events.take(2).push(CompileEvent::<P>::ProgramCompiled(Err(message))).drop_last()
        =~= events.take(2));
}

/// A compilation takes its events in one order only.
pub proof fn law_compilation_takes_its_events_in_order<P>(events: Seq<CompileEvent<P>>)
    requires
        compile_after(events) is Some,
    ensures
        events.len() <= 3,
        events.len() > 0 ==> events[0] is DatabaseBuilt,
        events.len() > 1 ==> events[1] is DiagnosticsChecked,
        events.len() > 2 ==> events[2] is ProgramCompiled && compile_after(events)->0 is Finished,
        match compile_after(events)->0 {
            CompileStageView::BuildDatabase => events.len() == 0,
            CompileStageView::CheckDiagnostics => events.len() == 1,
            CompileStageView::CompileProgram => events.len() == 2,
            CompileStageView::Finished(_) => events.len() > 0,
        },
    decreases events.len(),
{
    if events.len() > 0 {
        law_compilation_takes_its_events_in_order(events.drop_last());
    }
}

/// The events of the compilation of a contract in which every step goes well, up to the library
/// functions.
pub open spec fn good_contract(diagnostics: String, class: ContractClass) -> Seq<StarknetEvent> {
    seq![
        StarknetEvent::DatabaseBuilt(Ok(())),
        StarknetEvent::DiagnosticsChecked { found: false, diagnostics },
        StarknetEvent::ContractCompiled(Ok(class)),
        StarknetEvent::LibfuncsValidated(Ok(())),
    ]
}

/// Whenever the diagnostics of a contract are to be checked, or the contract is to be compiled, it
/// is with exactly the flags of the caller; and it is compiled on to CASM with hints that Python
/// reads, up to the size of a contract on Starknet.
pub proof fn law_contract_is_compiled_as_the_caller_asks(
    options: StarknetOptionsView,
    events: Seq<StarknetEvent>,
)
    requires
        starknet_after(options, events) is Some,
    ensures
        starknet_action(
            starknet_after(options, events)->0,
            options,
        ) matches StarknetAction::CheckDiagnostics { allow_warnings } ==> allow_warnings
            == options.allow_warnings,
        starknet_action(
            starknet_after(options, events)->0,
            options,
        ) matches StarknetAction::CompileContract { replace_ids, allow_warnings } ==> replace_ids
            == options.replace_ids && allow_warnings == options.allow_warnings,
        starknet_action(
            starknet_after(options, events)->0,
            options,
        ) matches StarknetAction::CompileToCasm { add_pythonic_hints, max_bytecode_size }
            ==> add_pythonic_hints && max_bytecode_size == 180000,
{
}

/// Where the compilation of a contract stands while every step of it goes well.
proof fn lemma_good_contract(
    options: StarknetOptionsView,
    diagnostics: String,
    class: ContractClass,
    program: ExtractedSierraProgram,
)
    requires
        extracted_program(class, false, usize::BITS) == Ok::<ExtractedSierraProgram, Seq<char>>(
            program,
        ),
    ensures
        ({
            let events = good_contract(diagnostics, class);
            &&& starknet_after(options, events.take(0)) == Some(StarknetStageView::BuildDatabase)
            &&& starknet_after(options, events.take(1)) == Some(
                StarknetStageView::CheckDiagnostics,
            )
            &&& starknet_after(options, events.take(2)) == Some(StarknetStageView::CompileContract)
            &&& starknet_after(options, events.take(3)) == Some(
                StarknetStageView::ValidateLibfuncs { class, program },
            )
            &&& options.output_casm ==> starknet_after(options, events) == Some(
                StarknetStageView::CompileToCasm { class, program },
            )
            &&& !options.output_casm ==> starknet_after(options, events) == Some(
                StarknetStageView::Finished(Ok(class_text(class))),
            )
        }),
{
    let events = good_contract(diagnostics, class);
    assert(events.take(1).drop_last() =~= events.take(0));
    assert(events.take(2).drop_last() =~= events.take(1));
    assert(events.take(3).drop_last() =~= events.take(2));
    assert(events.drop_last() =~= events.take(3));
}

/// While every step goes well, the compilation of a contract goes through its actions in order, each
/// with the flags of the caller. Where no CASM is asked for, it ends in the text of the very class
/// that was compiled; where CASM is asked for, it goes on with that class.
pub proof fn law_contract_goes_through_its_steps(
    options: StarknetOptionsView,
    diagnostics: String,
    class: ContractClass,
    program: ExtractedSierraProgram,
)
    requires
        extracted_program(class, false, usize::BITS) == Ok::<ExtractedSierraProgram, Seq<char>>(
            program,
        ),
    ensures
        ({
            let events = good_contract(diagnostics, class);
            let held = starknet_after(options, events)->0;
            &&& starknet_action(starknet_after(options, events.take(0))->0, options)
                == StarknetAction::BuildDatabase
            &&& starknet_action(starknet_after(options, events.take(1))->0, options) == (
            StarknetAction::CheckDiagnostics { allow_warnings: options.allow_warnings })
            &&& starknet_action(starknet_after(options, events.take(2))->0, options) == (
            StarknetAction::CompileContract {
                replace_ids: options.replace_ids,
                allow_warnings: options.allow_warnings,
            })
            &&& starknet_action(starknet_after(options, events.take(3))->0, options)
                == StarknetAction::ValidateLibfuncs
            &&& starknet::class_held(starknet_after(options, events.take(3))->0) == Some(class)
            &&& starknet::program_held(starknet_after(options, events.take(3))->0) == Some(program)
            &&& starknet_after(options, events) is Some
            &&& !options.output_casm ==> held == StarknetStageView::Finished(Ok(class_text(class)))
            &&& !options.output_casm ==> starknet_action(held, options) == StarknetAction::Nothing
            &&& options.output_casm ==> starknet_action(held, options) == (
            StarknetAction::CompileToCasm { add_pythonic_hints: true, max_bytecode_size: 180000 })
            &&& options.output_casm ==> starknet::class_held(held) == Some(class)
            &&& options.output_casm ==> starknet::program_held(held) == Some(program)
        }),
{
    lemma_good_contract(options, diagnostics, class, program);
}

/// A contract that was compiled on to CASM is printed as one object: the class under the name
/// `sierra`, and the CASM under the name `casm`. What keeps it from being printed is told by which
/// part it is about, the class before the CASM.
pub proof fn law_class_and_casm_are_printed_together(
    options: StarknetOptionsView,
    diagnostics: String,
    class: ContractClass,
    program: ExtractedSierraProgram,
    casm: CasmContractClass,
)
    requires
        options.output_casm,
        extracted_program(class, false, usize::BITS) == Ok::<ExtractedSierraProgram, Seq<char>>(
            program,
        ),
    ensures
        starknet_after(
            options,
            good_contract(diagnostics, class).push(StarknetEvent::CasmCompiled(Ok(casm))),
        ) == Some(
            StarknetStageView::Finished(
                match (class_json(class), casm_json(casm)) {
                    (Err(reason), _) => Err(ErrorView::SierraSerializationFailed { reason }),
                    (Ok(_), Err(reason)) => Err(ErrorView::CasmSerializationFailed { reason }),
                    (Ok(sierra_value), Ok(casm_value)) => match json_text(
                        json_object(
                            seq![("sierra"@, sierra_value), ("casm"@, casm_value)],
                        ),
                    ) {
                        Ok(text) => Ok(text),
                        Err(reason) => Err(ErrorView::SerializationFailed { reason }),
                    },
                },
            ),
        ),
{
    let events = good_contract(diagnostics, class);
    lemma_good_contract(options, diagnostics, class, program);
    assert(events.push(StarknetEvent::CasmCompiled(Ok(casm))).drop_last() =~= events);
}

/// The first step that fails ends the compilation of a contract: with the message of its error, with
/// the diagnostics, or with what kept the contract from being compiled on to CASM. So does a class
/// that no program can be extracted from.
pub proof fn law_failure_ends_a_contract(
    options: StarknetOptionsView,
    diagnostics: String,
    class: ContractClass,
    program: ExtractedSierraProgram,
    message: String,
    broken: ContractClass,
    reason: Seq<char>,
)
    requires
        extracted_program(class, false, usize::BITS) == Ok::<ExtractedSierraProgram, Seq<char>>(
            program,
        ),
        extracted_program(broken, false, usize::BITS) == Err::<ExtractedSierraProgram, Seq<char>>(
            reason,
        ),
    ensures
        ({
            let events = good_contract(diagnostics, class);
            let failed = Some(
                StarknetStageView::Finished(Err(ErrorView::Outside { message: message@ })),
            );
            let found = StarknetEvent::DiagnosticsChecked { found: true, diagnostics: message };
            let refused = StarknetEvent::ContractCompiled(Ok(broken));
            &&& starknet_after(
                options,
                events.take(0).push(StarknetEvent::DatabaseBuilt(Err(message))),
            ) == failed
            &&& starknet_after(options, events.take(1).push(found)) == Some(
                StarknetStageView::Finished(
                    Err(ErrorView::FailedToCompile { message: "failed to compile:\n"@ + message@ }),
                ),
            )
            &&& starknet_after(
                options,
                events.take(2).push(StarknetEvent::ContractCompiled(Err(message))),
            ) == failed
            &&& starknet_after(options, events.take(2).push(refused)) == Some(
                StarknetStageView::Finished(Err(ErrorView::Outside { message: reason })),
            )
            &&& starknet_after(
                options,
                events.take(3).push(StarknetEvent::LibfuncsValidated(Err(message))),
            ) == failed
            &&& options.output_casm ==> starknet_after(
                options,
                events.push(StarknetEvent::CasmCompiled(Err(message))),
            ) == Some(
                StarknetStageView::Finished(
                    Err(ErrorView::CasmCompilationFailed { reason: message@ }),
                ),
            )
        }),
{
    let events = good_contract(diagnostics, class);
    lemma_good_contract(options, diagnostics, class, program);
    let found = StarknetEvent::DiagnosticsChecked { found: true, diagnostics: message };
    let refused = StarknetEvent::ContractCompiled(Ok(broken));
    assert(events.take(0).push(StarknetEvent::DatabaseBuilt(Err(message))).drop_last()
        =~= events.take(0));
    assert(events.take(1).push(found).drop_last() =~= events.take(1));
    assert(events.take(2).push(StarknetEvent::ContractCompiled(Err(message))).drop_last()
        =~= events.take(2));
    assert(events.take(2).push(refused).drop_last() =~= events.take(2));
    assert(events.take(3).push(StarknetEvent::LibfuncsValidated(Err(message))).drop_last()
        =~= events.take(3));
    assert(events.push(StarknetEvent::CasmCompiled(Err(message))).drop_last() =~= events);
}

/// The compilation of a contract takes its events in one order only.
pub proof fn law_contract_takes_its_events_in_order(
    options: StarknetOptionsView,
    events: Seq<StarknetEvent>,
)
    requires
        starknet_after(options, events) is Some,
    ensures
        events.len() <= 5,
        events.len() > 0 ==> events[0] is DatabaseBuilt,
        events.len() > 1 ==> events[1] is DiagnosticsChecked,
        events.len() > 2 ==> events[2] is ContractCompiled,
        events.len() > 3 ==> events[3] is LibfuncsValidated,
        events.len() > 4 ==> events[4] is CasmCompiled && options.output_casm,
        events.len() == 4 && !options.output_casm || events.len() == 5 ==> starknet_after(
            options,
            events,
        )->0 is Finished,
        match starknet_after(options, events)->0 {
            StarknetStageView::BuildDatabase => events.len() == 0,
            StarknetStageView::CheckDiagnostics => events.len() == 1,
            StarknetStageView::CompileContract => events.len() == 2,
            StarknetStageView::ValidateLibfuncs { class: _, program: _ } => events.len() == 3,
            StarknetStageView::CompileToCasm { class: _, program: _ } => events.len() == 4,
            StarknetStageView::Finished(_) => events.len() > 0,
        },
    decreases events.len(),
{
    if events.len() > 0 {
        law_contract_takes_its_events_in_order(options, events.drop_last());
    }
}

/// A test run builds its database, runs the tests, and ends in what came of them. The first step
/// that fails ends it, with the message of its error.
pub proof fn law_test_run_goes_through_its_steps(outcome: Option<TestsSummary>, message: String)
    ensures
        ({
            let built = seq![TestEvent::DatabaseBuilt(Ok(()))];
            let failed = Some(
                TestStageView::Finished(Err(ErrorView::Outside { message: message@ })),
            );
            let tested = built.push(TestEvent::TestsRun(Ok(outcome)));
            &&& test_after(Seq::empty()) is Some
            &&& test_action(test_after(Seq::empty())->0) == TestAction::BuildDatabase
            &&& test_after(built) is Some
            &&& test_action(test_after(built)->0) == TestAction::RunTests
            &&& test_after(tested) == Some(TestStageView::Finished(Ok(outcome)))
            &&& test_action(test_after(tested)->0) == TestAction::Nothing
            &&& test_after(seq![TestEvent::DatabaseBuilt(Err(message))]) == failed
            &&& test_after(built.push(TestEvent::TestsRun(Err(message)))) == failed
        }),
{
    let built = seq![TestEvent::DatabaseBuilt(Ok(()))];
    assert(built.drop_last() =~= Seq::empty());
    assert(seq![TestEvent::DatabaseBuilt(Err(message))].drop_last() =~= Seq::empty());
    assert(test_after(Seq::empty()) == Some(TestStageView::BuildDatabase));
    assert(test_after(built) == Some(TestStageView::RunTests));
    assert(built.push(TestEvent::TestsRun(Ok(outcome))).drop_last() =~= built);
    assert(built.push(TestEvent::TestsRun(Err(message))).drop_last() =~= built);
}

/// A test run takes its events in one order only.
pub proof fn law_test_run_takes_its_events_in_order(events: Seq<TestEvent>)
    requires
        test_after(events) is Some,
    ensures
        events.len() <= 2,
        events.len() > 0 ==> events[0] is DatabaseBuilt,
        events.len() > 1 ==> events[1] is TestsRun && test_after(events)->0 is Finished,
        events.len() == 0 ==> test_after(events)->0 is BuildDatabase,
        events.len() == 1 ==> test_after(events)->0 is RunTests || test_after(events)->0 is Finished,
    decreases events.len(),
{
    if events.len() > 0 {
        law_test_run_takes_its_events_in_order(events.drop_last());
    }
}

} // verus!
