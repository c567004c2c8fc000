//! Compiling a project to a program.
use vstd::prelude::*;

use crate::database::{
    crate_views, empty_database, init_corelib, plain_crate, with_corelib, CrateInput,
    CrateInputView, RootDatabase, RootDatabaseView,
};
use crate::directory::file_texts;
use crate::embedded::EmbeddedDir;
use crate::error::{Error, ErrorView};
use crate::project::{
    dependency_views, may_be_parent, setup_project_with_input_string, setup_virtual_project,
    setup_virtual_project_with_deps, single_file_crate, with_single_file_project,
    with_virtual_project, with_virtual_project_and_deps, DependencyInput,
};
use crate::text::followed_by;

verus! {

/// The error that diagnostics give rise to.
pub open spec fn diagnostics_error(diagnostics: Seq<char>) -> ErrorView {
    ErrorView::FailedToCompile { message: "failed to compile:\n "@ + diagnostics }
}

/// Fails with the text of the diagnostics, if any were found.
pub fn check_diagnostics(found: bool, diagnostics: &str) -> (result: Result<(), Error>)
    ensures
        result is Err <==> found,
        result matches Err(error) ==> error@ == diagnostics_error(diagnostics@),
        result matches Err(error) ==> (error matches Error::FailedToCompile { message } && message@
            == "failed to compile:\n "@ + diagnostics@),
{
    if found {
        let message = followed_by("failed to compile:\n ", diagnostics);
        Err(Error::FailedToCompile { message })
    } else {
        Ok(())
    }
}

/// How far a compilation has come.
#[derive(Debug)]
pub enum CompileStage<P> {
    BuildDatabase,
    CheckDiagnostics,
    CompileProgram,
    Finished(Result<P, Error>),
}

/// What a [`CompileStage`] holds.
pub enum CompileStageView<P> {
    BuildDatabase,
    CheckDiagnostics,
    CompileProgram,
    Finished(Result<P, ErrorView>),
}

impl<P> View for CompileStage<P> {
    type V = CompileStageView<P>;

    open spec fn view(&self) -> CompileStageView<P> {
        match *self {
            CompileStage::BuildDatabase => CompileStageView::BuildDatabase,
            CompileStage::CheckDiagnostics => CompileStageView::CheckDiagnostics,
            CompileStage::CompileProgram => CompileStageView::CompileProgram,
            CompileStage::Finished(result) => CompileStageView::Finished(
                match result {
                    Ok(program) => Ok(program),
                    Err(error) => Err(error@),
                },
            ),
        }
    }
}

/// What is to be done next.
#[derive(Clone, Copy, Debug, PartialEq, Eq)]
pub enum CompileAction {
    /// Build the database that the session describes.
    BuildDatabase,
    /// Collect the diagnostics of the main crates.
    CheckDiagnostics { allow_warnings: bool },
    /// Compile the main crates, with the configuration that the session holds.
    CompileProgram,
    /// Nothing: the compilation is over.
    Nothing,
}

/// What came of an action. A failure is told by the message of its error.
#[derive(Debug)]
pub enum CompileEvent<P> {
    DatabaseBuilt(Result<(), String>),
    DiagnosticsChecked { found: bool, diagnostics: String },
    ProgramCompiled(Result<P, String>),
}

/// What is done next at a stage. Warnings count as diagnostics.
pub open spec fn compile_action<P>(stage: CompileStageView<P>) -> CompileAction {
    match stage {
        CompileStageView::BuildDatabase => CompileAction::BuildDatabase,
        CompileStageView::CheckDiagnostics => CompileAction::CheckDiagnostics {
            allow_warnings: false,
        },
        CompileStageView::CompileProgram => CompileAction::CompileProgram,
        CompileStageView::Finished(_) => CompileAction::Nothing,
    }
}

/// The stage that follows an event, if the event is one that the stage waits for.
pub open spec fn compile_next<P>(
    stage: CompileStageView<P>,
    event: CompileEvent<P>,
) -> Option<CompileStageView<P>> {
    match (stage, event) {
        (CompileStageView::BuildDatabase, CompileEvent::DatabaseBuilt(built)) => match built {
            Ok(_) => Some(CompileStageView::CheckDiagnostics),
            Err(message) => Some(
                CompileStageView::Finished(Err(ErrorView::Outside { message: message@ })),
            ),
        },
        (
            CompileStageView::CheckDiagnostics,
            CompileEvent::DiagnosticsChecked { found, diagnostics },
        ) => if found {
            Some(CompileStageView::Finished(Err(diagnostics_error(diagnostics@))))
        } else {
            Some(CompileStageView::CompileProgram)
        },
        (CompileStageView::CompileProgram, CompileEvent::ProgramCompiled(compiled)) => match compiled {
            Ok(program) => Some(CompileStageView::Finished(Ok(program))),
            Err(message) => Some(
                CompileStageView::Finished(Err(ErrorView::Outside { message: message@ })),
            ),
        },
        _ => None,
    }
}

/// A compilation to a program of type `P`: the project that is compiled, the configuration of the
/// compiler, which is handed on as it is, and how far the compilation has come.
#[derive(Debug)]
pub struct CompileSession<C, P> {
    pub database: RootDatabase,
    pub main_crates: Vec<CrateInput>,
    pub compiler_config: C,
    pub stage: CompileStage<P>,
}

/// A compilation that has just begun.
pub open spec fn begins<C, P>(
    session: CompileSession<C, P>,
    database: RootDatabaseView,
    main_crate: CrateInputView,
    compiler_config: C,
) -> bool {
    &&& session.database.well_formed()
    &&& session.database@ == database
    &&& crate_views(session.main_crates@) == seq![main_crate]
    &&& session.compiler_config == compiler_config
    &&& session.stage@ == CompileStageView::<P>::BuildDatabase
}

impl<C, P> CompileSession<C, P> {
    /// What is to be done next.
    pub fn action(&self) -> (action: CompileAction)
        ensures
            action == compile_action(self.stage@),
            self.stage is CheckDiagnostics ==> action == (CompileAction::CheckDiagnostics {
                allow_warnings: false,
            }),
    {
        match &self.stage {
            CompileStage::BuildDatabase => CompileAction::BuildDatabase,
            CompileStage::CheckDiagnostics => CompileAction::CheckDiagnostics {
                allow_warnings: false,
            },
            CompileStage::CompileProgram => CompileAction::CompileProgram,
            CompileStage::Finished(_) => CompileAction::Nothing,
        }
    }

    /// Takes note of what came of the last action. An event that the compilation does not wait for
    /// is not taken, and changes nothing.
    pub fn advance(&mut self, event: CompileEvent<P>) -> (taken: bool)
        ensures
            taken <==> compile_next(old(self).stage@, event) is Some,
            taken ==> final(self).stage@ == compile_next(old(self).stage@, event)->0,
            !taken ==> final(self).stage == old(self).stage,
            final(self).database == old(self).database,
            final(self).main_crates == old(self).main_crates,
            final(self).compiler_config == old(self).compiler_config,
    {
        let next: CompileStage<P> = match (&self.stage, event) {
            (CompileStage::BuildDatabase, CompileEvent::DatabaseBuilt(built)) => match built {
                Ok(_) => CompileStage::CheckDiagnostics,
                Err(message) => CompileStage::Finished(Err(Error::Outside { message })),
            },
            (
                CompileStage::CheckDiagnostics,
                CompileEvent::DiagnosticsChecked { found, diagnostics },
            ) => match check_diagnostics(found, diagnostics.as_str()) {
                Ok(_) => CompileStage::CompileProgram,
                Err(error) => CompileStage::Finished(Err(error)),
            },
            (CompileStage::CompileProgram, CompileEvent::ProgramCompiled(compiled)) => match compiled {
                Ok(program) => CompileStage::Finished(Ok(program)),
                Err(message) => CompileStage::Finished(Err(Error::Outside { message })),
            },
            _ => {
                return false;
            },
        };
        self.stage = next;
        true
    }
}

/// The database that a compilation starts from.
fn new_compile_database(corelib: &EmbeddedDir) -> (db: RootDatabase)
    requires
        corelib.is_text(),
    ensures
        db.well_formed(),
        db@ == with_corelib(empty_database(), *corelib),
{
    let mut db = RootDatabase::new();
    init_corelib(&mut db, corelib);
    db
}

/// Begins the compilation of a project that is a single text, beside the file that `path` names.
pub fn compile_cairo_project_with_input_string<C, P>(
    path: &str,
    input: &str,
    compiler_config: C,
    corelib: &EmbeddedDir,
) -> (session: Result<CompileSession<C, P>, Error>)
    requires
        corelib.is_text(),
    ensures
        session is Ok,
        exists|parent: Option<Seq<char>>| #[trigger]
            may_be_parent(path@, parent) && begins(
                session->Ok_0,
                with_single_file_project(
                    with_corelib(empty_database(), *corelib),
                    parent,
                    input@,
                ),
                plain_crate(single_file_crate()),
                compiler_config,
            ),
{
    let mut db = new_compile_database(corelib);
    match setup_project_with_input_string(&mut db, path, input) {
        Ok(main_crates) => Ok(
            CompileSession {
                database: db,
                main_crates,
                compiler_config,
                stage: CompileStage::BuildDatabase,
            },
        ),
        Err(error) => Err(error),
    }
}

/// Begins the compilation of a project that is a set of files.
pub fn compile_cairo_project_with_virtual_files<C, P>(
    project_name: &str,
    files: &Vec<(String, String)>,
    compiler_config: C,
    corelib: &EmbeddedDir,
) -> (session: Result<CompileSession<C, P>, Error>)
    requires
        corelib.is_text(),
    ensures
        session matches Ok(session) && begins(
            session,
            with_virtual_project(
                with_corelib(empty_database(), *corelib),
                project_name@,
                file_texts(files@),
            ),
            plain_crate(project_name@),
            compiler_config,
        ),
{
    let mut db = new_compile_database(corelib);
    let main_crates = setup_virtual_project(&mut db, project_name, files);
    Ok(
        CompileSession {
            database: db,
            main_crates,
            compiler_config,
            stage: CompileStage::BuildDatabase,
        },
    )
}

/// Begins the compilation of a project that is a set of files and depends on other crates.
pub fn compile_cairo_project_with_virtual_files_and_deps<C, P>(
    project_name: &str,
    files: &Vec<(String, String)>,
    dependencies: &Vec<(String, DependencyInput)>,
    compiler_config: C,
    corelib: &EmbeddedDir,
) -> (session: Result<CompileSession<C, P>, Error>)
    requires
        corelib.is_text(),
    ensures
        session matches Ok(session) && begins(
            session,
            with_virtual_project_and_deps(
                with_corelib(empty_database(), *corelib),
                project_name@,
                file_texts(files@),
                dependency_views(dependencies@),
            ),
            plain_crate(project_name@),
            compiler_config,
        ),
{
    let mut db = new_compile_database(corelib);
    let main_crates = setup_virtual_project_with_deps(&mut db, project_name, files, dependencies);
    Ok(
        CompileSession {
            database: db,
            main_crates,
            compiler_config,
            stage: CompileStage::BuildDatabase,
        },
    )
}

} // verus!
