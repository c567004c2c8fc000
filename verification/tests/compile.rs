use cairo_wasm_interface::compile::{
    check_diagnostics, compile_cairo_project_with_input_string,
    compile_cairo_project_with_virtual_files, compile_cairo_project_with_virtual_files_and_deps,
    CompileAction, CompileEvent, CompileSession, CompileStage,
};
use cairo_wasm_interface::directory::Directory;
use cairo_wasm_interface::embedded::EmbeddedDir;
use cairo_wasm_interface::error::Error;
use cairo_wasm_interface::project::DependencyInput;

fn corelib() -> EmbeddedDir {
    EmbeddedDir { files: vec![("lib.cairo".to_string(), b"".to_vec())], dirs: vec![] }
}

fn begun() -> CompileSession<u8, String> {
    let files = vec![("lib.cairo".to_string(), "fn f() {}".to_string())];
    compile_cairo_project_with_virtual_files("p", &files, 9, &corelib()).unwrap()
}

fn names(session: &CompileSession<u8, String>) -> Vec<String> {
    session.database.crate_configs.iter().map(|(name, _)| name.clone()).collect()
}

fn result(session: CompileSession<u8, String>) -> Result<String, String> {
    match session.stage {
        CompileStage::Finished(Ok(program)) => Ok(program),
        CompileStage::Finished(Err(error)) => Err(error.message()),
        _ => panic!("the compilation is not over"),
    }
}

#[test]
fn diagnostics_become_an_error() {
    assert!(check_diagnostics(false, "warning: x").is_ok());
    let error = check_diagnostics(true, "error: x\n").unwrap_err();
    assert!(matches!(error, Error::FailedToCompile { .. }));
    assert_eq!(error.message(), "failed to compile:\n error: x\n");
}

#[test]
fn compilation_goes_through_its_steps() {
    let mut session = begun();
    assert_eq!(session.action(), CompileAction::BuildDatabase);
    assert!(session.advance(CompileEvent::DatabaseBuilt(Ok(()))));
    assert_eq!(session.action(), CompileAction::CheckDiagnostics { allow_warnings: false });
    assert!(session.advance(CompileEvent::DiagnosticsChecked {
        found: false,
        diagnostics: String::new(),
    }));
    assert_eq!(session.action(), CompileAction::CompileProgram);
    assert_eq!(session.compiler_config, 9);
    assert!(session.advance(CompileEvent::ProgramCompiled(Ok("program".to_string()))));
    assert_eq!(session.action(), CompileAction::Nothing);
    assert!(!session.advance(CompileEvent::DatabaseBuilt(Ok(()))));
    assert_eq!(result(session), Ok("program".to_string()));
}

#[test]
fn diagnostics_end_a_compilation() {
    let mut session = begun();
    session.advance(CompileEvent::DatabaseBuilt(Ok(())));
    assert!(session.advance(CompileEvent::DiagnosticsChecked {
        found: true,
        diagnostics: "error".to_string(),
    }));
    assert_eq!(session.action(), CompileAction::Nothing);
    assert_eq!(result(session), Err("failed to compile:\n error".to_string()));
}

#[test]
fn outside_failures_end_a_compilation() {
    let mut early = begun();
    assert!(!early.advance(CompileEvent::ProgramCompiled(Ok("too early".to_string()))));
    assert!(early.advance(CompileEvent::DatabaseBuilt(Err("no database".to_string()))));
    assert_eq!(result(early), Err("no database".to_string()));
    let mut late = begun();
    late.advance(CompileEvent::DatabaseBuilt(Ok(())));
    late.advance(CompileEvent::DiagnosticsChecked { found: false, diagnostics: String::new() });
    assert!(late.advance(CompileEvent::ProgramCompiled(Err("no program".to_string()))));
    assert_eq!(result(late), Err("no program".to_string()));
}

#[test]
fn compilation_of_a_single_text() {
    let session: CompileSession<u8, String> =
        compile_cairo_project_with_input_string("demo/a.cairo", "fn f() {}", 1, &corelib()).unwrap();
    assert_eq!(names(&session), vec!["core".to_string(), "astro".to_string()]);
    match &session.database.crate_configs[1].1.root {
        Directory::Real(path) => assert_eq!(path, "demo"),
        Directory::Virtual { .. } => panic!("a directory in memory"),
    }
    assert_eq!(session.database.file_overrides[0].0, "demo/lib.cairo");
    assert!(session.database.auto_withdraw_gas);
    assert!(session.database.plugin_suites.is_empty());
    assert_eq!(session.main_crates[0].name, "astro");
}

#[test]
fn compilation_of_virtual_files() {
    let session = begun();
    assert_eq!(names(&session), vec!["core".to_string(), "p".to_string()]);
    assert_eq!(session.main_crates.len(), 1);
    assert_eq!(session.main_crates[0].name, "p");
}

#[test]
fn compilation_of_virtual_files_with_dependencies() {
    let dependencies = vec![(
        "dep".to_string(),
        DependencyInput { files: vec![], edition: None, dependencies: vec![] },
    )];
    let session: CompileSession<u8, String> = compile_cairo_project_with_virtual_files_and_deps(
        "p",
        &Vec::new(),
        &dependencies,
        2,
        &corelib(),
    )
    .unwrap();
    assert_eq!(names(&session), vec!["core".to_string(), "dep".to_string(), "p".to_string()]);
}
