use cairo_lang_sierra::ids::{ConcreteLibfuncId, GenericLibfuncId};
use cairo_lang_sierra::program::{ConcreteLibfuncLongId, LibfuncDeclaration, Program};
use cairo_wasm_interface::embedded::EmbeddedDir;
use cairo_wasm_interface::error::Error;
use cairo_wasm_interface::number::{count_text, Felt252};
use cairo_wasm_interface::project::DependencyInput;
use cairo_wasm_interface::run::{
    check_gas, generate_run_result_log, initial_state, main_arguments, main_function_suffix, run_with_input_program_string,
    run_with_virtual_project, run_with_virtual_project_and_deps, RunAction, RunEvent,
    RunResultStarknet, RunResultValue, RunSession, RunStage,
};

fn corelib() -> EmbeddedDir {
    EmbeddedDir { files: vec![("lib.cairo".to_string(), b"".to_vec())], dirs: vec![] }
}

/// A program that declares one library function.
fn program(libfunc: &str) -> Program {
    Program {
        type_declarations: vec![],
        libfunc_declarations: vec![LibfuncDeclaration {
            id: ConcreteLibfuncId::new(0),
            long_id: ConcreteLibfuncLongId {
                generic_id: GenericLibfuncId::from_string(libfunc),
                generic_args: vec![],
            },
        }],
        statements: vec![],
        funcs: vec![],
    }
}

fn felt(n: u64) -> Felt252 {
    Felt252 { digits: [n, 0, 0, 0] }
}

fn succeeded(values: Vec<Felt252>) -> RunResultStarknet {
    RunResultStarknet { value: RunResultValue::Success(values), gas_counter: None, memory: vec![] }
}

fn begun(gas: Option<usize>) -> RunSession {
    run_with_input_program_string("fn main() {}", gas, true, false, true, false, &corelib()).unwrap()
}

fn result(session: RunSession) -> Result<String, String> {
    match session.stage {
        RunStage::Finished(Ok(log)) => Ok(log),
        RunStage::Finished(Err(error)) => Err(error.message()),
        _ => panic!("the run is not over"),
    }
}

fn names(session: &RunSession) -> Vec<String> {
    session.database.crate_configs.iter().map(|(name, _)| name.clone()).collect()
}

#[test]
fn numbers_are_written() {
    assert_eq!(felt(0).to_decimal(), "0");
    assert_eq!(felt(0).to_hexadecimal(), "0x0");
    assert_eq!(felt(9).to_decimal(), "9");
    assert_eq!(felt(10).to_decimal(), "10");
    assert_eq!(felt(255).to_hexadecimal(), "0xff");
    assert_eq!(felt(4096).to_hexadecimal(), "0x1000");
    assert_eq!(felt(1234567890).to_decimal(), "1234567890");
    assert_eq!(felt(u64::MAX).to_decimal(), "18446744073709551615");
    assert_eq!(count_text(0), "0");
    assert_eq!(count_text(1007), "1007");
}

#[test]
fn large_numbers_are_written() {
    assert_eq!(Felt252 { digits: [0, 1, 0, 0] }.to_decimal(), "18446744073709551616");
    assert_eq!(Felt252 { digits: [0, 1, 0, 0] }.to_hexadecimal(), "0x10000000000000000");
    // The largest element of the field.
    let last = Felt252 { digits: [0, 0, 0, 0x0800_0000_0000_0011] };
    assert_eq!(
        last.to_decimal(),
        "3618502788666131213697322783095070105623107215331596699973092056135872020480"
    );
    assert_eq!(
        last.to_hexadecimal(),
        "0x800000000000011000000000000000000000000000000000000000000000000"
    );
}

#[test]
fn log_of_a_success() {
    let log = generate_run_result_log(&succeeded(vec![]), false, false).unwrap();
    assert_eq!(log, "Run completed successfully, returning []\n");
    let log = generate_run_result_log(&succeeded(vec![felt(1), felt(16)]), false, true).unwrap();
    assert_eq!(log, "Run completed successfully, returning [0x1, 0x10]\n");
}

#[test]
fn log_of_a_panic() {
    let result = RunResultStarknet {
        value: RunResultValue::Panic(vec!["0x1 ('')".to_string(), "\"no\"".to_string()]),
        gas_counter: Some(felt(77)),
        memory: vec![Some(felt(3))],
    };
    let log = generate_run_result_log(&result, false, false).unwrap();
    assert_eq!(log, "Run panicked with [0x1 (''), \"no\"].\nRemaining gas: 77\n");
    let silent = RunResultStarknet {
        value: RunResultValue::Panic(vec![]),
        gas_counter: None,
        memory: vec![],
    };
    assert_eq!(generate_run_result_log(&silent, false, false).unwrap(), "Run panicked with [].\n");
}

#[test]
fn log_with_memory() {
    let result = RunResultStarknet {
        value: RunResultValue::Success(vec![felt(5)]),
        gas_counter: Some(felt(0)),
        memory: vec![Some(felt(1)), None, Some(felt(300))],
    };
    assert_eq!(
        generate_run_result_log(&result, true, false).unwrap(),
        "Run completed successfully, returning [0x5]\nRemaining gas: 0\nFull memory: [1, _, 300, ]\n"
    );
    assert_eq!(
        generate_run_result_log(&succeeded(vec![]), true, false).unwrap(),
        "Run completed successfully, returning []\nFull memory: []\n"
    );
}

#[test]
fn run_goes_through_its_steps() {
    let mut session = begun(Some(1000));
    assert_eq!(session.action(), RunAction::BuildDatabase);
    assert!(session.advance(RunEvent::DatabaseBuilt(Ok(()))));
    assert_eq!(session.action(), RunAction::CheckDiagnostics { allow_warnings: true });
    assert!(session.advance(RunEvent::DiagnosticsChecked { found: false, diagnostics: String::new() }));
    assert_eq!(session.action(), RunAction::GenerateSierra);
    assert!(session.advance(RunEvent::SierraGenerated { program: Some(program("withdraw_gas")) }));
    assert_eq!(session.action(), RunAction::CollectContracts);
    assert!(session.advance(RunEvent::ContractsCollected(Ok(()))));
    assert_eq!(
        session.action(),
        RunAction::CreateRunner { with_gas_metadata: true, with_profiling: true }
    );
    assert!(session.advance(RunEvent::RunnerCreated(Ok(()))));
    assert_eq!(session.action(), RunAction::FindMain);
    assert_eq!(main_function_suffix(), "::main");
    assert!(session.advance(RunEvent::MainFound(Ok(()))));
    assert_eq!(session.action(), RunAction::Execute { available_gas: Some(1000) });
    assert!(session.advance(RunEvent::Executed(Ok(succeeded(vec![felt(2)])))));
    assert_eq!(session.action(), RunAction::Nothing);
    assert!(!session.advance(RunEvent::DatabaseBuilt(Ok(()))));
    assert_eq!(result(session), Ok("Run completed successfully, returning [0x2]\n".to_string()));
}

#[test]
fn run_takes_no_event_out_of_turn() {
    let mut session = begun(None);
    assert!(!session.advance(RunEvent::Executed(Ok(succeeded(vec![])))));
    assert!(!session.advance(RunEvent::MainFound(Ok(()))));
    assert_eq!(session.action(), RunAction::BuildDatabase);
}

#[test]
fn diagnostics_end_a_run() {
    let mut session = begun(None);
    session.advance(RunEvent::DatabaseBuilt(Ok(())));
    assert!(session.advance(RunEvent::DiagnosticsChecked {
        found: true,
        diagnostics: "error: x".to_string(),
    }));
    assert_eq!(result(session), Err("failed to compile:\n error: x".to_string()));
}

#[test]
fn run_needs_a_program() {
    let mut session = begun(None);
    session.advance(RunEvent::DatabaseBuilt(Ok(())));
    session.advance(RunEvent::DiagnosticsChecked { found: false, diagnostics: "w".to_string() });
    assert!(session.advance(RunEvent::SierraGenerated { program: None }));
    assert_eq!(result(session), Err("Compilation failed without any diagnostics.".to_string()));
}

#[test]
fn run_needs_gas_that_is_counted() {
    let mut session = begun(None);
    assert!(!session.database.auto_withdraw_gas);
    session.advance(RunEvent::DatabaseBuilt(Ok(())));
    session.advance(RunEvent::DiagnosticsChecked { found: false, diagnostics: String::new() });
    assert!(session.advance(RunEvent::SierraGenerated { program: Some(program("withdraw_gas")) }));
    assert_eq!(
        result(session),
        Err("Program requires gas counter, please provide `--available-gas` argument.".to_string())
    );
}

#[test]
fn gas_is_counted_by_three_library_functions() {
    for (libfunc, counts) in [
        ("withdraw_gas", true),
        ("withdraw_gas_all", true),
        ("redeposit_gas", true),
        ("get_available_gas", false),
        ("get_builtin_costs", false),
    ] {
        let mut session = begun(None);
        session.advance(RunEvent::DatabaseBuilt(Ok(())));
        session.advance(RunEvent::DiagnosticsChecked { found: false, diagnostics: String::new() });
        assert!(session.advance(RunEvent::SierraGenerated { program: Some(program(libfunc)) }));
        assert_eq!(matches!(session.stage, RunStage::Finished(_)), counts);
    }
    assert!(check_gas(None, true).is_err());
    assert!(check_gas(None, false).is_ok());
    assert!(check_gas(Some(0), true).is_ok());
}

#[test]
fn main_is_called_without_arguments_in_an_empty_state() {
    assert!(main_arguments().is_empty());
    assert!(initial_state().deployed_contracts.is_empty());
    assert!(initial_state().storage.is_empty());
}

#[test]
fn program_is_held_until_there_is_a_runner() {
    let mut session = begun(Some(1));
    session.advance(RunEvent::DatabaseBuilt(Ok(())));
    session.advance(RunEvent::DiagnosticsChecked { found: false, diagnostics: String::new() });
    assert!(session.program().is_none());
    session.advance(RunEvent::SierraGenerated { program: Some(program("x")) });
    assert_eq!(session.program(), Some(&program("x")));
    session.advance(RunEvent::ContractsCollected(Ok(())));
    assert_eq!(session.program(), Some(&program("x")));
    assert!(!session.advance(RunEvent::DatabaseBuilt(Ok(()))));
    assert_eq!(session.program(), Some(&program("x")));
    session.advance(RunEvent::RunnerCreated(Ok(())));
    assert!(session.program().is_none());
}

#[test]
fn program_that_counts_no_gas_needs_none() {
    let mut session = begun(None);
    session.advance(RunEvent::DatabaseBuilt(Ok(())));
    session.advance(RunEvent::DiagnosticsChecked { found: false, diagnostics: String::new() });
    assert!(session.advance(RunEvent::SierraGenerated { program: Some(program("felt252_add")) }));
    assert_eq!(session.action(), RunAction::CollectContracts);
    session.advance(RunEvent::ContractsCollected(Ok(())));
    assert_eq!(
        session.action(),
        RunAction::CreateRunner { with_gas_metadata: false, with_profiling: true }
    );
}

#[test]
fn outside_failures_end_a_run() {
    let mut early = begun(None);
    assert!(early.advance(RunEvent::DatabaseBuilt(Err("no database".to_string()))));
    assert_eq!(result(early), Err("no database".to_string()));
    let mut late = begun(Some(1));
    late.advance(RunEvent::DatabaseBuilt(Ok(())));
    late.advance(RunEvent::DiagnosticsChecked { found: false, diagnostics: String::new() });
    late.advance(RunEvent::SierraGenerated { program: Some(program("felt252_add")) });
    late.advance(RunEvent::ContractsCollected(Ok(())));
    late.advance(RunEvent::RunnerCreated(Ok(())));
    assert!(late.advance(RunEvent::MainFound(Err("Function not found".to_string()))));
    match &late.stage {
        RunStage::Finished(Err(error)) => {
            assert!(matches!(error, Error::Outside { .. }));
            assert_eq!(error.cause(), None);
        }
        _ => panic!("the run is not over"),
    }
    assert_eq!(result(late), Err("Function not found".to_string()));
}

#[test]
fn run_of_a_single_text() {
    let session = begun(Some(5));
    assert!(session.database.auto_withdraw_gas);
    assert_eq!(names(&session), vec!["core".to_string(), "astro".to_string()]);
    assert_eq!(session.database.file_overrides[0].1, "fn main() {}");
    assert_eq!(session.main_crates.len(), 1);
    assert_eq!(session.main_crates[0].name, "astro");
}

#[test]
fn run_of_a_virtual_project() {
    let files = vec![("lib.cairo".to_string(), "fn main() {}".to_string())];
    let session =
        run_with_virtual_project("p", &files, None, false, true, false, true, &corelib()).unwrap();
    assert_eq!(names(&session), vec!["core".to_string(), "p".to_string()]);
    assert_eq!(session.main_crates[0].name, "p");
    assert!(!session.options.allow_warnings);
    assert!(session.options.print_full_memory);
    assert!(!session.options.run_profiler);
    assert!(session.options.use_dbg_print_hint);
}

#[test]
fn run_of_a_virtual_project_with_dependencies() {
    let files = vec![("lib.cairo".to_string(), "fn main() {}".to_string())];
    let dependencies = vec![(
        "dep".to_string(),
        DependencyInput { files: vec![], edition: None, dependencies: vec![] },
    )];
    let session = run_with_virtual_project_and_deps(
        "p",
        &files,
        &dependencies,
        Some(7),
        false,
        false,
        false,
        false,
        &corelib(),
    )
    .unwrap();
    assert_eq!(names(&session), vec!["core".to_string(), "dep".to_string(), "p".to_string()]);
    assert_eq!(session.options.available_gas, Some(7));
}
