//! What holds of runs, compilations and test runs from their beginning to their end.
use vstd::prelude::*;

use cairo_lang_starknet_classes::contract_class::{ContractClass, ExtractedSierraProgram};

use crate::compile::{
    compile_action, compile_next, diagnostics_error, CompileAction, CompileEvent, CompileStageView,
};
use crate::error::ErrorView;
use crate::run::{
    libfunc_names, program_held, run_action, run_log, run_next, some_moves_gas, RunAction, RunEvent,
    RunOptions, RunStageView,
};
use crate::starknet::{
    self, casm_json, class_held, class_json, class_text, extracted_program, json_object, json_text,
    members_by_name, printed_result, sierra_and_casm, sierra_and_casm_result, starknet_action, starknet_next,
    StarknetAction, StarknetEvent, StarknetOptionsView, StarknetStageView,
};
use crate::test_runner::{formatted, outcome_text, test_next, TestEvent, TestStageView};

verus! {

/// Where a run stands after a list of events, if each of them came when it was waited for.
pub open spec fn run_after(options: RunOptions, events: Seq<RunEvent>) -> Option<RunStageView>
    decreases events.len(),
{
    if events.len() == 0 {
        Some(RunStageView::BuildDatabase)
    } else {
        match run_after(options, events.drop_last()) {
            Some(stage) => run_next(stage, options, events.last()),
            None => None,
        }
    }
}

/// The stage that a run is at once the first steps of it went well.
pub open spec fn run_stage_at(step: int, events: Seq<RunEvent>) -> RunStageView {
    let program = events[2]->program->0;
    if step <= 0 {
        RunStageView::BuildDatabase
    } else if step == 1 {
        RunStageView::CheckDiagnostics
    } else if step == 2 {
        RunStageView::GenerateSierra
    } else if step == 3 {
        RunStageView::CollectContracts { program }
    } else if step == 4 {
        RunStageView::CreateRunner { program }
    } else if step == 5 {
        RunStageView::FindMain
    } else {
        RunStageView::Execute
    }
}

/// A step of a run went well: the database was built, no diagnostics were found, there is a
/// program that counts no gas unless gas was given, the contracts were collected, the runner was
/// created, the main function was found, and it was executed.
pub open spec fn run_step_passes(step: int, options: RunOptions, event: RunEvent) -> bool {
    if step == 0 {
        event matches RunEvent::DatabaseBuilt(built) && built is Ok
    } else if step == 1 {
        event matches RunEvent::DiagnosticsChecked { found, diagnostics: _ } && !found
    } else if step == 2 {
        event matches RunEvent::SierraGenerated { program } && (program matches Some(program) && (
        options.available_gas is Some || !some_moves_gas(libfunc_names(program))))
    } else if step == 3 {
        event matches RunEvent::ContractsCollected(collected) && collected is Ok
    } else if step == 4 {
        event matches RunEvent::RunnerCreated(created) && created is Ok
    } else if step == 5 {
        event matches RunEvent::MainFound(found) && found is Ok
    } else {
        event matches RunEvent::Executed(executed) && executed is Ok
    }
}

/// The first `n` steps of a run went well.
pub open spec fn run_passes(n: int, options: RunOptions, events: Seq<RunEvent>) -> bool {
    forall|i: int| 0 <= i < n ==> #[trigger] run_step_passes(i, options, events[i])
}

/// Where a run stands after a list of events.
proof fn lemma_run_after(options: RunOptions, events: Seq<RunEvent>)
    ensures
        match run_after(options, events) {
            Some(RunStageView::Finished(Ok(log))) => {
                &&& events.len() == 7
                &&& run_passes(7, options, events)
                &&& log == run_log(events[6]->Executed_0->Ok_0, options.print_full_memory)
            },
            Some(RunStageView::Finished(Err(_))) => {
                &&& 1 <= events.len() <= 7
                &&& run_passes(events.len() - 1, options, events)
                &&& !run_step_passes(events.len() - 1, options, events.last())
            },
            Some(stage) => {
                &&& events.len() < 7
                &&& run_passes(events.len() as int, options, events)
                &&& stage == run_stage_at(events.len() as int, events)
            },
            None => true,
        },
        events.len() < 7 && run_passes(events.len() as int, options, events) ==> run_after(
            options,
            events,
        ) == Some(run_stage_at(events.len() as int, events)),
        events.len() == 7 && run_passes(7, options, events) ==> run_after(options, events) == Some(
            RunStageView::Finished(
                Ok(run_log(events[6]->Executed_0->Ok_0, options.print_full_memory)),
            ),
        ),
    decreases events.len(),
{
    if events.len() > 0 {
        let before = events.drop_last();
        lemma_run_after(options, before);
        let last = events.len() - 1;
        assert(run_passes(last, options, events) == run_passes(last, options, before)) by {
            if run_passes(last, options, events) {
                assert forall|i: int| 0 <= i < last implies #[trigger] run_step_passes(
                    i,
                    options,
                    before[i],
                ) by {
                    assert(run_step_passes(i, options, events[i]));
                }
            }
            if run_passes(last, options, before) {
                assert forall|i: int| 0 <= i < last implies #[trigger] run_step_passes(
                    i,
                    options,
                    events[i],
                ) by {
                    assert(run_step_passes(i, options, before[i]));
                }
            }
        }
        if run_passes(events.len() as int, options, events) {
            assert(run_step_passes(last, options, events[last]));
            assert(run_passes(last, options, events));
        }
        if run_passes(last, options, events) && run_step_passes(last, options, events[last]) {
            assert(run_passes(events.len() as int, options, events));
        }
    }
}

/// A run succeeds if and only if every step of it went well. Its result is the log of what was
/// executed.
pub proof fn law_run_succeeds(options: RunOptions, events: Seq<RunEvent>)
    ensures
        (run_after(options, events) matches Some(RunStageView::Finished(Ok(_)))) <==> events.len()
            == 7 && run_passes(7, options, events),
        run_after(options, events) matches Some(RunStageView::Finished(Ok(log))) ==> log == run_log(
            events[6]->Executed_0->Ok_0,
            options.print_full_memory,
        ),
{
    lemma_run_after(options, events);
}

/// A run is over after seven events at most, and takes none after that.
pub proof fn law_run_ends(options: RunOptions, events: Seq<RunEvent>, event: RunEvent)
    ensures
        run_after(options, events) is Some ==> events.len() <= 7,
        run_after(options, events) is Some && events.len() == 7 ==> run_after(
            options,
            events,
        )->0 is Finished,
        (run_after(options, events) matches Some(RunStageView::Finished(_))) ==> run_after(
            options,
            events.push(event),
        ) is None && run_action(run_after(options, events)->0, options) == RunAction::Nothing,
{
    lemma_run_after(options, events);
    assert(events.push(event).drop_last() =~= events);
}

/// Nothing is executed before the diagnostics were found to be clean, nor where the program counts
/// gas that was not given; and what is executed gets the gas that was given.
pub proof fn law_only_checked_programs_are_executed(options: RunOptions, events: Seq<RunEvent>)
    requires
        run_after(options, events) is Some,
        run_action(run_after(options, events)->0, options) is Execute,
    ensures
        run_action(run_after(options, events)->0, options) == (RunAction::Execute {
            available_gas: options.available_gas,
        }),
        events.len() == 6,
        events[1] matches RunEvent::DiagnosticsChecked { found, diagnostics: _ } && !found,
        events[2] matches RunEvent::SierraGenerated { program } && (program matches Some(program)
            && (some_moves_gas(libfunc_names(program)) ==> options.available_gas is Some)),
{
    lemma_run_after(options, events);
    assert(run_step_passes(1, options, events[1]));
    assert(run_step_passes(2, options, events[2]));
}

/// Neither warnings that are allowed nor a hint for debug output change what comes of a run: that
/// goes by the events alone, by the gas that was given, and by what is to be printed.
pub proof fn law_run_goes_by_its_events(
    options: RunOptions,
    allow_warnings: bool,
    run_profiler: bool,
    use_dbg_print_hint: bool,
    events: Seq<RunEvent>,
)
    ensures
        run_after(
            RunOptions { allow_warnings, run_profiler, use_dbg_print_hint, ..options },
            events,
        ) == run_after(options, events),
    decreases events.len(),
{
    if events.len() > 0 {
        law_run_goes_by_its_events(
            options,
            allow_warnings,
            run_profiler,
            use_dbg_print_hint,
            events.drop_last(),
        );
    }
}

/// A runner is created for the program that was generated.
pub proof fn law_one_program_is_held(options: RunOptions, events: Seq<RunEvent>)
    requires
        run_after(options, events) is Some,
        program_held(run_after(options, events)->0) is Some,
    ensures
        events.len() > 2,
        events[2] == (RunEvent::SierraGenerated {
            program: program_held(run_after(options, events)->0),
        }),
{
    lemma_run_after(options, events);
    assert(run_step_passes(2, options, events[2]));
}

/// Diagnostics end a run, and are shown in its error.
pub proof fn law_diagnostics_end_a_run(options: RunOptions, events: Seq<RunEvent>)
    requires
        run_after(options, events) is Some,
        events.len() > 0,
        events.last() matches RunEvent::DiagnosticsChecked { found, diagnostics: _ } && found,
    ensures
        run_after(options, events) == Some(
            RunStageView::Finished(Err(diagnostics_error(events.last()->diagnostics@))),
        ),
{
}

/// A program that counts gas is refused where no gas was given.
pub proof fn law_gas_is_required(options: RunOptions, events: Seq<RunEvent>)
    requires
        run_after(options, events) is Some,
        events.len() > 0,
        options.available_gas is None,
        events.last() matches RunEvent::SierraGenerated { program } && (
        program matches Some(program) && some_moves_gas(libfunc_names(program))),
    ensures
        run_after(options, events) == Some(
            RunStageView::Finished(Err(ErrorView::GasCounterRequired)),
        ),
{
}

/// Where a compilation stands after a list of events, if each of them came when it was waited for.
pub open spec fn compile_after<P>(events: Seq<CompileEvent<P>>) -> Option<CompileStageView<P>>
    decreases events.len(),
{
    if events.len() == 0 {
        Some(CompileStageView::BuildDatabase)
    } else {
        match compile_after(events.drop_last()) {
            Some(stage) => compile_next(stage, events.last()),
            None => None,
        }
    }
}

/// A step of a compilation went well: the database was built, no diagnostics were found, and the
/// program was compiled.
pub open spec fn compile_step_passes<P>(step: int, event: CompileEvent<P>) -> bool {
    if step == 0 {
        event matches CompileEvent::DatabaseBuilt(built) && built is Ok
    } else if step == 1 {
        event matches CompileEvent::DiagnosticsChecked { found, diagnostics: _ } && !found
    } else {
        event matches CompileEvent::ProgramCompiled(compiled) && compiled is Ok
    }
}

/// The first `n` steps of a compilation went well.
pub open spec fn compile_passes<P>(n: int, events: Seq<CompileEvent<P>>) -> bool {
    forall|i: int| 0 <= i < n ==> #[trigger] compile_step_passes(i, events[i])
}

/// The stage that a compilation is at once the first steps of it went well.
pub open spec fn compile_stage_at<P>(step: int) -> CompileStageView<P> {
    if step <= 0 {
        CompileStageView::BuildDatabase
    } else if step == 1 {
        CompileStageView::CheckDiagnostics
    } else {
        CompileStageView::CompileProgram
    }
}

/// Where a compilation stands after a list of events.
proof fn lemma_compile_after<P>(events: Seq<CompileEvent<P>>)
    ensures
        match compile_after(events) {
            Some(CompileStageView::Finished(Ok(program))) => {
                &&& events.len() == 3
                &&& compile_passes(3, events)
                &&& program == events[2]->ProgramCompiled_0->Ok_0
            },
            Some(CompileStageView::Finished(Err(_))) => 1 <= events.len() <= 3,
            Some(stage) => {
                &&& events.len() < 3
                &&& compile_passes(events.len() as int, events)
                &&& stage == compile_stage_at::<P>(events.len() as int)
            },
            None => true,
        },
        events.len() < 3 && compile_passes(events.len() as int, events) ==> compile_after(events)
            == Some(compile_stage_at::<P>(events.len() as int)),
        events.len() == 3 && compile_passes(3, events) ==> compile_after(events) == Some(
            CompileStageView::Finished(Ok(events[2]->ProgramCompiled_0->Ok_0)),
        ),
    decreases events.len(),
{
    if events.len() > 0 {
        let before = events.drop_last();
        lemma_compile_after(before);
        let last = events.len() - 1;
        assert(compile_passes(last, events) == compile_passes(last, before)) by {
            if compile_passes(last, events) {
                assert forall|i: int| 0 <= i < last implies #[trigger] compile_step_passes(
                    i,
                    before[i],
                ) by {
                    assert(compile_step_passes(i, events[i]));
                }
            }
            if compile_passes(last, before) {
                assert forall|i: int| 0 <= i < last implies #[trigger] compile_step_passes(
                    i,
                    events[i],
                ) by {
                    assert(compile_step_passes(i, before[i]));
                }
            }
        }
        if compile_passes(events.len() as int, events) {
            assert(compile_step_passes(last, events[last]));
            assert(compile_passes(last, events));
        }
        if compile_passes(last, events) && compile_step_passes(last, events[last]) {
            assert(compile_passes(events.len() as int, events));
        }
    }
}

/// A compilation succeeds if and only if every step of it went well. Its result is the program
/// that was compiled.
pub proof fn law_compilation_succeeds<P>(events: Seq<CompileEvent<P>>)
    ensures
        (compile_after(events) matches Some(CompileStageView::Finished(Ok(_)))) <==> events.len()
            == 3 && compile_passes(3, events),
        compile_after(events) matches Some(CompileStageView::Finished(Ok(program))) ==> program
            == events[2]->ProgramCompiled_0->Ok_0,
{
    lemma_compile_after(events);
}

/// A compilation is over after three events at most, and takes none after that.
pub proof fn law_compilation_ends<P>(events: Seq<CompileEvent<P>>, event: CompileEvent<P>)
    ensures
        compile_after(events) is Some ==> events.len() <= 3,
        compile_after(events) is Some && events.len() == 3 ==> compile_after(events)->0 is Finished,
        (compile_after(events) matches Some(CompileStageView::Finished(_))) ==> compile_after(
            events.push(event),
        ) is None && compile_action(compile_after(events)->0) == CompileAction::Nothing,
{
    lemma_compile_after(events);
    assert(events.push(event).drop_last() =~= events);
}

/// A program is compiled only after the diagnostics were found to be clean.
pub proof fn law_only_checked_projects_are_compiled<P>(events: Seq<CompileEvent<P>>)
    requires
        compile_after(events) is Some,
        compile_action(compile_after(events)->0) is CompileProgram,
    ensures
        events.len() == 2,
        events[1] matches CompileEvent::DiagnosticsChecked { found, diagnostics: _ } && !found,
{
    lemma_compile_after(events);
    assert(compile_step_passes(1, events[1]));
}

/// Diagnostics end a compilation, and are shown in its error.
pub proof fn law_diagnostics_end_a_compilation<P>(events: Seq<CompileEvent<P>>)
    requires
        compile_after(events) is Some,
        events.len() > 0,
        events.last() matches CompileEvent::DiagnosticsChecked { found, diagnostics: _ } && found,
    ensures
        compile_after(events) == Some(
            CompileStageView::<P>::Finished(Err(diagnostics_error(events.last()->diagnostics@))),
        ),
{
}

/// Where the compilation of a contract stands after a list of events, if each of them came when it
/// was waited for.
pub open spec fn starknet_after(
    options: StarknetOptionsView,
    events: Seq<StarknetEvent>,
) -> Option<StarknetStageView>
    decreases events.len(),
{
    if events.len() == 0 {
        Some(StarknetStageView::BuildDatabase)
    } else {
        match starknet_after(options, events.drop_last()) {
            Some(stage) => starknet_next(stage, options, events.last()),
            None => None,
        }
    }
}

/// The number of steps that the compilation of a contract takes.
pub open spec fn starknet_steps(output_casm: bool) -> int {
    if output_casm {
        5
    } else {
        4
    }
}

/// A step of the compilation of a contract went well: the database was built, no diagnostics were
/// found, the contract was compiled to a class that holds a program, its library functions are
/// allowed, and where CASM is asked for the program was compiled on.
pub open spec fn starknet_step_passes(step: int, event: StarknetEvent) -> bool {
    if step == 0 {
        event matches StarknetEvent::DatabaseBuilt(built) && built is Ok
    } else if step == 1 {
        event matches StarknetEvent::DiagnosticsChecked { found, diagnostics: _ } && !found
    } else if step == 2 {
        event matches StarknetEvent::ContractCompiled(compiled) && (compiled matches Ok(class)
            && extracted_program(class, false, usize::BITS) is Ok)
    } else if step == 3 {
        event matches StarknetEvent::LibfuncsValidated(validated) && validated is Ok
    } else {
        event matches StarknetEvent::CasmCompiled(compiled) && compiled is Ok
    }
}

/// The contract class that was compiled.
pub open spec fn class_compiled(events: Seq<StarknetEvent>) -> ContractClass {
    events[2]->ContractCompiled_0->Ok_0
}

/// The stage that the compilation of a contract is at once the first steps of it went well.
pub open spec fn starknet_stage_at(step: int, events: Seq<StarknetEvent>) -> StarknetStageView {
    let class = class_compiled(events);
    let program = extracted_program(class, false, usize::BITS)->Ok_0;
    if step <= 0 {
        StarknetStageView::BuildDatabase
    } else if step == 1 {
        StarknetStageView::CheckDiagnostics
    } else if step == 2 {
        StarknetStageView::CompileContract
    } else if step == 3 {
        StarknetStageView::ValidateLibfuncs { class, program }
    } else {
        StarknetStageView::CompileToCasm { class, program }
    }
}

/// The first `n` steps of the compilation of a contract went well.
pub open spec fn starknet_passes(n: int, events: Seq<StarknetEvent>) -> bool {
    forall|i: int| 0 <= i < n ==> #[trigger] starknet_step_passes(i, events[i])
}

/// What the last step of the compilation of a contract leads to: the contract class, printed alone
/// or beside its CASM.
pub open spec fn starknet_output(output_casm: bool, events: Seq<StarknetEvent>) -> Result<
    Seq<char>,
    ErrorView,
> {
    if output_casm {
        sierra_and_casm_result(class_compiled(events), events[4]->CasmCompiled_0->Ok_0)
    } else {
        Ok(class_text(class_compiled(events)))
    }
}

/// Where the compilation of a contract stands after a list of events.
proof fn lemma_starknet_after(options: StarknetOptionsView, events: Seq<StarknetEvent>)
    ensures
        ({
            let steps = starknet_steps(options.output_casm);
            let n = events.len() as int;
            match starknet_after(options, events) {
                Some(StarknetStageView::Finished(result)) => {
                    &&& 1 <= n <= steps
                    &&& starknet_passes(n - 1, events)
                    &&& result is Ok ==> n == steps && starknet_passes(n, events) && result
                        == starknet_output(options.output_casm, events)
                },
                Some(stage) => {
                    &&& n < steps
                    &&& starknet_passes(n, events)
                    &&& stage == starknet_stage_at(n, events)
                },
                None => true,
            }
        }),
        events.len() < starknet_steps(options.output_casm) && starknet_passes(
            events.len() as int,
            events,
        ) ==> starknet_after(options, events) == Some(
            starknet_stage_at(events.len() as int, events),
        ),
        events.len() == starknet_steps(options.output_casm) && starknet_passes(
            events.len() as int,
            events,
        ) ==> starknet_after(options, events) == Some(
            StarknetStageView::Finished(starknet_output(options.output_casm, events)),
        ),
    decreases events.len(),
{
    if events.len() > 0 {
        let before = events.drop_last();
        lemma_starknet_after(options, before);
        let last = events.len() - 1;
        assert(starknet_passes(last, events) == starknet_passes(last, before)) by {
            if starknet_passes(last, events) {
                assert forall|i: int| 0 <= i < last implies #[trigger] starknet_step_passes(
                    i,
                    before[i],
                ) by {
                    assert(starknet_step_passes(i, events[i]));
                }
            }
            if starknet_passes(last, before) {
                assert forall|i: int| 0 <= i < last implies #[trigger] starknet_step_passes(
                    i,
                    events[i],
                ) by {
                    assert(starknet_step_passes(i, before[i]));
                }
            }
        }
        if starknet_passes(events.len() as int, events) {
            assert(starknet_step_passes(last, events[last]));
            assert(starknet_passes(last, events));
        }
        if starknet_passes(last, events) && starknet_step_passes(last, events[last]) {
            assert(starknet_passes(events.len() as int, events));
        }
    }
}

/// The compilation of a contract succeeds if and only if every step of it went well and the output
/// could be printed. Its result is that output.
pub proof fn law_contract_compilation_succeeds(
    options: StarknetOptionsView,
    events: Seq<StarknetEvent>,
)
    ensures
        (starknet_after(options, events) matches Some(StarknetStageView::Finished(Ok(_)))) <==> {
            &&& events.len() == starknet_steps(options.output_casm)
            &&& starknet_passes(starknet_steps(options.output_casm), events)
            &&& starknet_output(options.output_casm, events) is Ok
        },
        starknet_after(options, events) matches Some(StarknetStageView::Finished(Ok(text)))
            ==> starknet_output(options.output_casm, events) == Ok::<Seq<char>, ErrorView>(text),
{
    lemma_starknet_after(options, events);
}

/// The compilation of a contract is over after four events at most, or five where CASM is asked
/// for, and takes none after that.
pub proof fn law_contract_compilation_ends(
    options: StarknetOptionsView,
    events: Seq<StarknetEvent>,
    event: StarknetEvent,
)
    ensures
        starknet_after(options, events) is Some ==> events.len() <= starknet_steps(
            options.output_casm,
        ),
        starknet_after(options, events) is Some && events.len() == starknet_steps(
            options.output_casm,
        ) ==> starknet_after(options, events)->0 is Finished,
        (starknet_after(options, events) matches Some(StarknetStageView::Finished(_)))
            ==> starknet_after(options, events.push(event)) is None && starknet_action(
            starknet_after(options, events)->0,
            options,
        ) == StarknetAction::Nothing,
{
    lemma_starknet_after(options, events);
    assert(events.push(event).drop_last() =~= events);
}

/// Whatever is done with a contract class is done with the one that was compiled, and whatever is
/// done with a program is done with the one that was extracted from that class.
pub proof fn law_one_class_is_held(options: StarknetOptionsView, events: Seq<StarknetEvent>)
    requires
        starknet_after(options, events) is Some,
        class_held(starknet_after(options, events)->0) is Some,
    ensures
        events.len() > 2,
        events[2] == StarknetEvent::ContractCompiled(
            Ok(class_held(starknet_after(options, events)->0)->0),
        ),
        extracted_program(
            class_held(starknet_after(options, events)->0)->0,
            false,
            usize::BITS,
        ) == Ok::<ExtractedSierraProgram, Seq<char>>(
            starknet::program_held(starknet_after(options, events)->0)->0,
        ),
{
    lemma_starknet_after(options, events);
    assert(starknet_step_passes(2, events[2]));
}

/// A contract is compiled only after the diagnostics were found to be clean, and compiled on to
/// CASM only where that is asked for and its library functions were found to be allowed.
pub proof fn law_only_checked_contracts_are_compiled(
    options: StarknetOptionsView,
    events: Seq<StarknetEvent>,
)
    requires
        starknet_after(options, events) is Some,
    ensures
        starknet_action(
            starknet_after(options, events)->0,
            options,
        ) is CompileContract ==> events.len() == 2 && (
        events[1] matches StarknetEvent::DiagnosticsChecked { found, diagnostics: _ } && !found),
        starknet_action(
            starknet_after(options, events)->0,
            options,
        ) is CompileToCasm ==> options.output_casm && events.len() == 4 && (
        events[3] matches StarknetEvent::LibfuncsValidated(validated) && validated is Ok),
{
    lemma_starknet_after(options, events);
    if starknet_after(options, events)->0 is CompileContract {
        assert(starknet_step_passes(1, events[1]));
    }
    if starknet_after(options, events)->0 is CompileToCasm {
        assert(starknet_step_passes(3, events[3]));
    }
}

/// Asking for CASM adds to the output and changes nothing in it: where the compilation succeeds
/// with CASM, it succeeds without CASM too, with the same contract class printed alone; and the
/// output with CASM is an object that holds that very class, the CASM, and nothing else.
pub proof fn law_casm_is_added_to_the_class(
    options: StarknetOptionsView,
    events: Seq<StarknetEvent>,
)
    requires
        options.output_casm,
        starknet_after(options, events) matches Some(StarknetStageView::Finished(Ok(_))),
    ensures
        ({
            let class = class_compiled(events);
            let plain = StarknetOptionsView { output_casm: false, ..options };
            let object = json_object(
                sierra_and_casm(
                    class_json(class)->Ok_0,
                    casm_json(events[4]->CasmCompiled_0->Ok_0)->Ok_0,
                ),
            );
            &&& starknet_after(plain, events.take(4)) == Some(
                StarknetStageView::Finished(Ok(class_text(class))),
            )
            &&& class_json(class) is Ok
            &&& starknet_after(options, events) == Some(
                StarknetStageView::Finished(printed_result(json_text(object))),
            )
        }),
        ({
            let class = class_compiled(events);
            let members = members_by_name(
                sierra_and_casm(
                    class_json(class)->Ok_0,
                    casm_json(events[4]->CasmCompiled_0->Ok_0)->Ok_0,
                ),
            );
            &&& members.dom() == set!["sierra"@, "casm"@]
            &&& members["sierra"@] == class_json(class)->Ok_0
        }),
{
    lemma_starknet_after(options, events);
    let plain = StarknetOptionsView { output_casm: false, ..options };
    let first = events.take(4);
    assert forall|i: int| 0 <= i < 4 implies #[trigger] starknet_step_passes(i, first[i]) by {
        assert(starknet_step_passes(i, events[i]));
    }
    lemma_starknet_after(plain, first);
    assert(starknet_passes(4, first));
    let sierra = class_json(class_compiled(events))->Ok_0;
    let casm = casm_json(events[4]->CasmCompiled_0->Ok_0)->Ok_0;
    let members = sierra_and_casm(sierra, casm);
    reveal_with_fuel(members_by_name, 3);
    assert(members.drop_last() =~= seq![("sierra"@, sierra)]);
    assert(members.drop_last().drop_last() =~= Seq::empty());
    reveal_strlit("sierra");
    reveal_strlit("casm");
    assert("sierra"@.len() != "casm"@.len());
    assert(members_by_name(members).dom() =~= set!["sierra"@, "casm"@]);
}

/// What comes of the compilation of a contract goes by the events alone, and by whether CASM is
/// asked for.
pub proof fn law_contract_compilation_goes_by_its_events(
    options: StarknetOptionsView,
    other: StarknetOptionsView,
    events: Seq<StarknetEvent>,
)
    requires
        options.output_casm == other.output_casm,
    ensures
        starknet_after(options, events) == starknet_after(other, events),
    decreases events.len(),
{
    if events.len() > 0 {
        law_contract_compilation_goes_by_its_events(options, other, events.drop_last());
    }
}

/// Diagnostics end the compilation of a contract, and are shown in its error.
pub proof fn law_diagnostics_end_a_contract_compilation(
    options: StarknetOptionsView,
    events: Seq<StarknetEvent>,
)
    requires
        starknet_after(options, events) is Some,
        events.len() > 0,
        events.last() matches StarknetEvent::DiagnosticsChecked { found, diagnostics: _ } && found,
    ensures
        starknet_after(options, events) == Some(
            StarknetStageView::Finished(
                Err(
                    ErrorView::FailedToCompile {
                        message: "failed to compile:\n"@ + events.last()->diagnostics@,
                    },
                ),
            ),
        ),
{
}

/// Where a test run stands after a list of events, if each of them came when it was waited for.
pub open spec fn test_after(events: Seq<TestEvent>) -> Option<TestStageView>
    decreases events.len(),
{
    if events.len() == 0 {
        Some(TestStageView::BuildDatabase)
    } else {
        match test_after(events.drop_last()) {
            Some(stage) => test_next(stage, events.last()),
            None => None,
        }
    }
}

/// A test run is over after two events at most, and comes to its end if and only if the database
/// was built and the tests were run. What is told of it then depends on what came of the tests.
pub proof fn law_test_run_ends(events: Seq<TestEvent>, event: TestEvent)
    ensures
        test_after(events) is Some ==> events.len() <= 2,
        (test_after(events) matches Some(TestStageView::Finished(_))) ==> test_after(
            events.push(event),
        ) is None,
        (test_after(events) matches Some(TestStageView::Finished(Ok(_)))) <==> {
            &&& events.len() == 2
            &&& events[0] matches TestEvent::DatabaseBuilt(built) && built is Ok
            &&& events[1] matches TestEvent::TestsRun(run) && run is Ok
        },
        test_after(events) matches Some(TestStageView::Finished(result)) ==> (result is Ok
            ==> formatted(result) == Ok::<Seq<char>, ErrorView>(
            outcome_text(events[1]->TestsRun_0->Ok_0),
        )),
{
    reveal_with_fuel(test_after, 4);
    assert(events.push(event).drop_last() =~= events);
    if events.len() > 2 {
        lemma_long_test_run(events);
    }
}

/// No test run takes more than two events.
proof fn lemma_long_test_run(events: Seq<TestEvent>)
    requires
        events.len() > 2,
    ensures
        test_after(events) is None,
    decreases events.len(),
{
    reveal_with_fuel(test_after, 4);
    if events.len() > 3 {
        lemma_long_test_run(events.drop_last());
    }
}

} // verus!
