use cairo_lang_sierra::ids::{ConcreteLibfuncId, GenericLibfuncId};
use cairo_lang_sierra::program::{ConcreteLibfuncLongId, LibfuncDeclaration, Program};
use cairo_lang_starknet_classes::casm_contract_class::CasmContractClass;
use cairo_lang_starknet_classes::contract_class::{ContractClass, ContractEntryPoints};
use cairo_wasm_interface::database::PluginSuite;
use cairo_wasm_interface::embedded::EmbeddedDir;
use cairo_wasm_interface::error::Error;
use cairo_wasm_interface::project::DependencyInput;
use cairo_wasm_interface::starknet::{
    combine_sierra_and_casm, compile_starknet_prepared, finish_printing, print_contract,
    print_sierra_and_casm,
    starknet_wasm_compile_with_input_string, starknet_wasm_compile_with_virtual_files,
    starknet_wasm_compile_with_virtual_files_and_deps, ListSelector, StarknetAction, StarknetEvent,
    StarknetSession, StarknetStage, MAX_BYTECODE_SIZE,
};

fn corelib() -> EmbeddedDir {
    EmbeddedDir { files: vec![("lib.cairo".to_string(), b"".to_vec())], dirs: vec![] }
}

/// A program without types, functions and statements, which declares one library function.
fn program() -> Program {
    Program {
        type_declarations: vec![],
        libfunc_declarations: vec![LibfuncDeclaration {
            id: ConcreteLibfuncId::new(0),
            long_id: ConcreteLibfuncLongId {
                generic_id: GenericLibfuncId::from_string("felt252_add"),
                generic_args: vec![],
            },
        }],
        statements: vec![],
        funcs: vec![],
    }
}

fn class() -> ContractClass {
    ContractClass::new(&program(), ContractEntryPoints::default(), None, Default::default()).unwrap()
}

/// A class that holds no program.
fn broken_class() -> ContractClass {
    ContractClass { sierra_program: vec![1u8.into()], ..class() }
}

fn casm() -> CasmContractClass {
    serde_json::from_str(
        "{\"prime\":\"0x11\",\"compiler_version\":\"2.16.1\",\"bytecode\":[\"0x1\"],\"hints\":[],\
         \"entry_points_by_type\":{\"EXTERNAL\":[],\"L1_HANDLER\":[],\"CONSTRUCTOR\":[]}}",
    )
    .unwrap()
}

fn begun(output_casm: bool) -> StarknetSession {
    starknet_wasm_compile_with_input_string(
        "mod contract {}",
        true,
        false,
        output_casm,
        Some("a::b".to_string()),
        None,
        None,
        &corelib(),
    )
    .unwrap()
}

fn validated(output_casm: bool) -> StarknetSession {
    let mut session = begun(output_casm);
    assert!(session.advance(StarknetEvent::DatabaseBuilt(Ok(()))));
    assert!(session.advance(StarknetEvent::DiagnosticsChecked {
        found: false,
        diagnostics: String::new(),
    }));
    assert!(session.advance(StarknetEvent::ContractCompiled(Ok(class()))));
    assert!(session.advance(StarknetEvent::LibfuncsValidated(Ok(()))));
    session
}

fn error(session: &StarknetSession) -> &Error {
    match &session.stage {
        StarknetStage::Finished(Err(error)) => error,
        _ => panic!("the compilation did not fail"),
    }
}

fn text(session: &StarknetSession) -> &str {
    match &session.stage {
        StarknetStage::Finished(Ok(text)) => text,
        _ => panic!("the compilation did not succeed"),
    }
}

fn names(session: &StarknetSession) -> Vec<String> {
    session.database.crate_configs.iter().map(|(name, _)| name.clone()).collect()
}

fn selected(name: Option<&str>, file: Option<&str>) -> ListSelector {
    compile_starknet_prepared(
        begun(false).database,
        Vec::new(),
        false,
        false,
        false,
        None,
        name.map(|n| n.to_string()),
        file.map(|f| f.to_string()),
    )
    .options
    .list_selector
}

#[test]
fn lists_are_selected() {
    assert!(matches!(selected(None, None), ListSelector::DefaultList));
    match selected(Some("audited"), None) {
        ListSelector::ListName(name) => assert_eq!(name, "audited"),
        _ => panic!("another list"),
    }
    match selected(None, Some("list.json")) {
        ListSelector::ListFile(path) => assert_eq!(path, "list.json"),
        _ => panic!("another list"),
    }
}

#[test]
fn class_is_printed_alone() {
    let mut session = begun(false);
    assert_eq!(session.action(), StarknetAction::BuildDatabase);
    assert!(session.advance(StarknetEvent::DatabaseBuilt(Ok(()))));
    assert_eq!(session.action(), StarknetAction::CheckDiagnostics { allow_warnings: true });
    assert!(session.advance(StarknetEvent::DiagnosticsChecked {
        found: false,
        diagnostics: "w".to_string(),
    }));
    assert_eq!(
        session.action(),
        StarknetAction::CompileContract { replace_ids: false, allow_warnings: true }
    );
    assert_eq!(session.options.contract_path, Some("a::b".to_string()));
    assert!(session.class().is_none());
    assert!(session.advance(StarknetEvent::ContractCompiled(Ok(class()))));
    assert_eq!(session.action(), StarknetAction::ValidateLibfuncs);
    assert_eq!(session.class(), Some(&class()));
    assert_eq!(session.program().unwrap().program, program());
    assert!(!session.advance(StarknetEvent::CasmCompiled(Ok(casm()))));
    assert_eq!(session.class(), Some(&class()));
    assert!(session.advance(StarknetEvent::LibfuncsValidated(Ok(()))));
    assert_eq!(session.action(), StarknetAction::Nothing);
    assert!(!session.advance(StarknetEvent::LibfuncsValidated(Ok(()))));
    assert_eq!(text(&session), serde_json::to_string_pretty(&class()).unwrap());
    assert!(text(&session).starts_with("{\n  \"sierra_program\": ["));
}

#[test]
fn class_and_casm_are_printed_together() {
    let mut session = validated(true);
    assert_eq!(
        session.action(),
        StarknetAction::CompileToCasm { add_pythonic_hints: true, max_bytecode_size: 180000 }
    );
    assert_eq!(MAX_BYTECODE_SIZE, 180000);
    assert_eq!(session.class(), Some(&class()));
    assert_eq!(session.program().unwrap().program, program());
    assert!(session.advance(StarknetEvent::CasmCompiled(Ok(casm()))));
    let printed: serde_json::Value = serde_json::from_str(text(&session)).unwrap();
    assert_eq!(printed["sierra"], serde_json::to_value(class()).unwrap());
    assert_eq!(printed["casm"], serde_json::to_value(casm()).unwrap());
    assert_eq!(printed.as_object().unwrap().len(), 2);
    assert_eq!(text(&session), serde_json::to_string_pretty(&printed).unwrap());
}

#[test]
fn class_without_a_program_is_refused() {
    for output_casm in [false, true] {
        let mut session = begun(output_casm);
        session.advance(StarknetEvent::DatabaseBuilt(Ok(())));
        session
            .advance(StarknetEvent::DiagnosticsChecked { found: false, diagnostics: String::new() });
        assert!(session.advance(StarknetEvent::ContractCompiled(Ok(broken_class()))));
        assert!(matches!(error(&session), Error::Outside { .. }));
        let expected = broken_class().extract_sierra_program(false).err().unwrap().to_string();
        assert_eq!(error(&session).message(), expected);
    }
}

#[test]
fn casm_is_added_to_the_class() {
    let alone = print_contract(&class()).unwrap();
    let together = print_sierra_and_casm(&class(), &casm()).unwrap();
    let alone: serde_json::Value = serde_json::from_str(&alone).unwrap();
    let together: serde_json::Value = serde_json::from_str(&together).unwrap();
    assert_eq!(together["sierra"], alone);
}

#[test]
fn values_are_combined() {
    let value = |n: u8| serde_json::Value::from(n);
    let object = combine_sierra_and_casm(Ok(value(1)), Ok(value(2))).unwrap();
    assert_eq!(object["sierra"], value(1));
    assert_eq!(object["casm"], value(2));
    let no_sierra = combine_sierra_and_casm(Err("s".to_string()), Err("c".to_string())).unwrap_err();
    assert_eq!(no_sierra.message(), "Sierra serialization failed.");
    assert_eq!(no_sierra.cause(), Some("s".to_string()));
    let no_casm = combine_sierra_and_casm(Ok(value(1)), Err("c".to_string())).unwrap_err();
    assert_eq!(no_casm.message(), "CASM serialization failed.");
    assert_eq!(no_casm.cause(), Some("c".to_string()));
}

#[test]
fn printing_hands_texts_on() {
    assert_eq!(finish_printing(Ok("a".to_string())).unwrap(), "a");
    let error = finish_printing(Err("why".to_string())).unwrap_err();
    assert_eq!(error.message(), "Serialization failed.");
    assert_eq!(error.cause(), Some("why".to_string()));
}

#[test]
fn diagnostics_end_a_contract_compilation() {
    let mut session = begun(true);
    session.advance(StarknetEvent::DatabaseBuilt(Ok(())));
    assert!(session.advance(StarknetEvent::DiagnosticsChecked {
        found: true,
        diagnostics: "error: x".to_string(),
    }));
    assert_eq!(error(&session).message(), "failed to compile:\nerror: x");
}

#[test]
fn failures_before_validation_are_handed_on() {
    let mut session = begun(true);
    session.advance(StarknetEvent::DatabaseBuilt(Err("no database".to_string())));
    assert_eq!(error(&session).message(), "no database");
    let mut session = begun(true);
    session.advance(StarknetEvent::DatabaseBuilt(Ok(())));
    session.advance(StarknetEvent::DiagnosticsChecked { found: false, diagnostics: String::new() });
    assert!(session.advance(StarknetEvent::ContractCompiled(Err("no contract".to_string()))));
    assert_eq!(error(&session).message(), "no contract");
    assert!(matches!(error(&session), Error::Outside { .. }));
}

#[test]
fn failures_of_later_steps_are_told() {
    let mut session = validated(true);
    assert!(session.advance(StarknetEvent::CasmCompiled(Err("too big".to_string()))));
    assert_eq!(error(&session).message(), "Sierra to CASM compilation failed: too big");
    assert_eq!(error(&session).cause(), None);

    let mut session = begun(false);
    session.advance(StarknetEvent::DatabaseBuilt(Ok(())));
    session.advance(StarknetEvent::DiagnosticsChecked { found: false, diagnostics: String::new() });
    session.advance(StarknetEvent::ContractCompiled(Ok(class())));
    assert!(session.advance(StarknetEvent::LibfuncsValidated(Err("not allowed".to_string()))));
    assert_eq!(error(&session).message(), "not allowed");
}

#[test]
fn contract_in_a_single_text() {
    let session = begun(false);
    assert_eq!(session.database.plugin_suites, vec![PluginSuite::Starknet]);
    assert_eq!(names(&session), vec!["core".to_string(), "astro".to_string()]);
    assert_eq!(session.main_crates[0].name, "astro");
    assert_eq!(session.database.file_overrides[0].1, "mod contract {}");
}

#[test]
fn contract_in_virtual_files() {
    let files = vec![("lib.cairo".to_string(), "mod contract {}".to_string())];
    let session = starknet_wasm_compile_with_virtual_files(
        "p",
        &files,
        false,
        true,
        false,
        None,
        Some("all".to_string()),
        None,
        &corelib(),
    )
    .unwrap();
    assert_eq!(names(&session), vec!["core".to_string(), "p".to_string()]);
    assert!(session.options.replace_ids);
    assert!(!session.options.allow_warnings);
    assert!(matches!(session.options.list_selector, ListSelector::ListName(_)));
}

#[test]
fn contract_in_virtual_files_with_dependencies() {
    let dependencies = vec![(
        "dep".to_string(),
        DependencyInput { files: vec![], edition: None, dependencies: vec![] },
    )];
    let session = starknet_wasm_compile_with_virtual_files_and_deps(
        "p",
        &Vec::new(),
        &dependencies,
        false,
        false,
        true,
        None,
        None,
        Some("f".to_string()),
        &corelib(),
    )
    .unwrap();
    assert_eq!(names(&session), vec!["core".to_string(), "dep".to_string(), "p".to_string()]);
    assert!(session.options.output_casm);
}
