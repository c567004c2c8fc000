//! Compiling a Starknet contract to its class, and on to CASM.
use vstd::prelude::*;

use cairo_lang_starknet_classes::casm_contract_class::CasmContractClass;
use cairo_lang_starknet_classes::contract_class::{ContractClass, ExtractedSierraProgram};
use serde_json::Value;

use crate::database::{
    crate_views, empty_database, init_corelib, plain_crate, with_corelib, CrateInput,
    CrateInputView, PluginSuite, RootDatabase, RootDatabaseView,
};
use crate::directory::file_texts;
use crate::embedded::EmbeddedDir;
use crate::error::{text_result, Error, ErrorView};
use crate::project::{
    dependency_views, lemma_astro_parent, may_be_parent, setup_project_with_input_string,
    setup_virtual_project, setup_virtual_project_with_deps, single_file_crate,
    with_single_file_project, with_virtual_project, with_virtual_project_and_deps, DependencyInput,
};
use crate::text::{followed_by, optional_text};

verus! {

/// The size that the bytecode of a contract may have at most.
pub const MAX_BYTECODE_SIZE: usize = 180000;

/// Which library functions a contract may use.
#[derive(Debug)]
pub enum ListSelector {
    /// Those of a list with a known name.
    ListName(String),
    /// Those of a list in a file.
    ListFile(String),
    /// Those of the default list.
    DefaultList,
}

/// What a [`ListSelector`] holds.
pub enum ListSelectorView {
    ListName(Seq<char>),
    ListFile(Seq<char>),
    DefaultList,
}

impl View for ListSelector {
    type V = ListSelectorView;

    open spec fn view(&self) -> ListSelectorView {
        match *self {
            ListSelector::ListName(name) => ListSelectorView::ListName(name@),
            ListSelector::ListFile(path) => ListSelectorView::ListFile(path@),
            ListSelector::DefaultList => ListSelectorView::DefaultList,
        }
    }
}

/// What an optional selector holds.
pub open spec fn optional_selector(selector: Option<ListSelector>) -> Option<ListSelectorView> {
    match selector {
        Some(selector) => Some(selector@),
        None => None,
    }
}

/// The list that is selected by a name or by a file. There is none if both are given.
pub open spec fn selected_list(
    list_name: Option<Seq<char>>,
    list_file: Option<Seq<char>>,
) -> Option<ListSelectorView> {
    match (list_name, list_file) {
        (Some(_), Some(_)) => None,
        (Some(name), None) => Some(ListSelectorView::ListName(name)),
        (None, Some(path)) => Some(ListSelectorView::ListFile(path)),
        (None, None) => Some(ListSelectorView::DefaultList),
    }
}

/// `cairo_lang_starknet_classes::allowed_libfuncs::ListSelector::new`: the list that a name or a
/// file selects, the default one if neither is given, and none if both are.
#[verifier::external_body]
fn select_list(list_name: Option<String>, list_file: Option<String>) -> (selector: Option<
    ListSelector,
>)
    ensures
        optional_selector(selector) == selected_list(
            optional_text(list_name),
            optional_text(list_file),
        ),
{
    cairo_lang_starknet_classes::allowed_libfuncs::ListSelector::new(list_name, list_file).map(
        |selector| match selector {
            cairo_lang_starknet_classes::allowed_libfuncs::ListSelector::ListName(name) => ListSelector::ListName(name),
            cairo_lang_starknet_classes::allowed_libfuncs::ListSelector::ListFile(path) => ListSelector::ListFile(path),
            cairo_lang_starknet_classes::allowed_libfuncs::ListSelector::DefaultList => ListSelector::DefaultList,
        },
    )
}

/// `cairo_lang_starknet_classes::contract_class::ContractClass`: a contract, compiled to Sierra.
#[verifier::external_type_specification]
#[verifier::external_body]
pub struct ExContractClass(ContractClass);

/// `cairo_lang_starknet_classes::contract_class::ExtractedSierraProgram`: the Sierra program of a
/// contract class, with the versions that it was compiled with.
#[verifier::external_type_specification]
#[verifier::external_body]
pub struct ExExtractedSierraProgram(ExtractedSierraProgram);

/// `cairo_lang_starknet_classes::casm_contract_class::CasmContractClass`: a contract, compiled to
/// CASM.
#[verifier::external_type_specification]
#[verifier::external_body]
pub struct ExCasmContractClass(CasmContractClass);

/// `serde_json::Value`: a JSON value.
#[verifier::external_type_specification]
#[verifier::external_body]
pub struct ExValue(Value);

/// The program that `ContractClass::extract_sierra_program` finds in a contract class, with or
/// without its debug information, or the message of its error. A class spells some numbers of the
/// program as machine words, so the result also goes by the width of a word in bits.
pub uninterp spec fn extracted_program(
    class: ContractClass,
    populate_debug_info: bool,
    word_bits: u32,
) -> Result<ExtractedSierraProgram, Seq<char>>;

/// The text that `serde_json::to_string_pretty` writes for a contract class.
pub uninterp spec fn class_text(class: ContractClass) -> Seq<char>;

/// The value that `serde_json::to_value` makes of a contract class, or the message of its error.
pub uninterp spec fn class_json(class: ContractClass) -> Result<Value, Seq<char>>;

/// The value that `serde_json::to_value` makes of a CASM class, or the message of its error.
pub uninterp spec fn casm_json(casm: CasmContractClass) -> Result<Value, Seq<char>>;

/// The object that `serde_json::Value::from_iter` makes of a list of members.
pub uninterp spec fn json_object(members: Seq<(Seq<char>, Value)>) -> Value;

/// The members of a JSON object, by their names.
pub uninterp spec fn json_members(object: Value) -> Map<Seq<char>, Value>;

/// The text that `serde_json::to_string_pretty` writes for a JSON value, or the message of its
/// error.
pub uninterp spec fn json_text(value: Value) -> Result<Seq<char>, Seq<char>>;

/// A text, or the message of an error.
pub open spec fn text_or_message(result: Result<String, String>) -> Result<Seq<char>, Seq<char>> {
    match result {
        Ok(text) => Ok(text@),
        Err(message) => Err(message@),
    }
}

/// A JSON value, or the message of an error.
pub open spec fn value_or_message(result: Result<Value, String>) -> Result<Value, Seq<char>> {
    match result {
        Ok(value) => Ok(value),
        Err(message) => Err(message@),
    }
}

/// The names and values of members.
pub open spec fn member_views(members: Seq<(String, Value)>) -> Seq<(Seq<char>, Value)> {
    members.map_values(|member: (String, Value)| (member.0@, member.1))
}

/// Members by their names. Of two that bear one name the later one counts.
pub open spec fn members_by_name(members: Seq<(Seq<char>, Value)>) -> Map<Seq<char>, Value>
    decreases members.len(),
{
    if members.len() == 0 {
        Map::empty()
    } else {
        members_by_name(members.drop_last()).insert(members.last().0, members.last().1)
    }
}

/// A program, or the message of an error.
pub open spec fn program_or_message(result: Result<ExtractedSierraProgram, String>) -> Result<
    ExtractedSierraProgram,
    Seq<char>,
> {
    match result {
        Ok(program) => Ok(program),
        Err(message) => Err(message@),
    }
}

/// `cairo_lang_starknet_classes::contract_class::ContractClass::extract_sierra_program`: the Sierra
/// program that a contract class holds, or the message of the error where it holds none.
#[verifier::external_body]
fn extract_program(class: &ContractClass, populate_debug_info: bool) -> (program: Result<
    ExtractedSierraProgram,
    String,
>)
    ensures
        program_or_message(program) == extracted_program(*class, populate_debug_info, usize::BITS),
{
    class.extract_sierra_program(populate_debug_info).map_err(|error| error.to_string())
}

/// `serde_json::to_string_pretty` of a contract class. It writes to memory and does not fail: a
/// class is made of structures, tagged choices, lists, options, texts and integers, of maps whose
/// keys are texts, and of JSON values.
#[verifier::external_body]
fn print_class(class: &ContractClass) -> (text: Result<String, String>)
    ensures
        text is Ok,
        text->Ok_0@ == class_text(*class),
{
    serde_json::to_string_pretty(class).map_err(|error| error.to_string())
}

/// `serde_json::to_value` of a contract class.
#[verifier::external_body]
fn value_of_class(class: &ContractClass) -> (value: Result<Value, String>)
    ensures
        value_or_message(value) == class_json(*class),
{
    serde_json::to_value(class).map_err(|error| error.to_string())
}

/// `serde_json::to_value` of a CASM class.
#[verifier::external_body]
fn value_of_casm(casm: &CasmContractClass) -> (value: Result<Value, String>)
    ensures
        value_or_message(value) == casm_json(*casm),
{
    serde_json::to_value(casm).map_err(|error| error.to_string())
}

/// `serde_json::Value::from_iter`: the object that has the members of a list, and no others. Of two
/// that bear one name it has the later one.
#[verifier::external_body]
fn object_of(members: Vec<(String, Value)>) -> (object: Value)
    ensures
        object == json_object(member_views(members@)),
        json_members(object) == members_by_name(member_views(members@)),
{
    Value::from_iter(members)
}

/// `serde_json::to_string_pretty` of a JSON value.
#[verifier::external_body]
fn print_value(value: &Value) -> (text: Result<String, String>)
    ensures
        text_or_message(text) == json_text(*value),
{
    serde_json::to_string_pretty(value).map_err(|error| error.to_string())
}

/// The members of the object that holds a contract class beside its CASM.
pub open spec fn sierra_and_casm(sierra: Value, casm: Value) -> Seq<(Seq<char>, Value)> {
    seq![("sierra"@, sierra), ("casm"@, casm)]
}

/// The object that holds a contract class beside its CASM. It fails where one of them is no JSON,
/// with the error of the class if both are not.
pub open spec fn combined_result(
    sierra: Result<Value, Seq<char>>,
    casm: Result<Value, Seq<char>>,
) -> Result<Value, ErrorView> {
    match (sierra, casm) {
        (Err(reason), _) => Err(ErrorView::SierraSerializationFailed { reason }),
        (Ok(_), Err(reason)) => Err(ErrorView::CasmSerializationFailed { reason }),
        (Ok(sierra), Ok(casm)) => Ok(json_object(sierra_and_casm(sierra, casm))),
    }
}

/// What is returned once a JSON text was printed, or could not be printed.
pub open spec fn printed_result(printed: Result<Seq<char>, Seq<char>>) -> Result<
    Seq<char>,
    ErrorView,
> {
    match printed {
        Ok(text) => Ok(text),
        Err(reason) => Err(ErrorView::SerializationFailed { reason }),
    }
}

/// What is returned for a contract class and its CASM.
pub open spec fn sierra_and_casm_result(class: ContractClass, casm: CasmContractClass) -> Result<
    Seq<char>,
    ErrorView,
> {
    match combined_result(class_json(class), casm_json(casm)) {
        Ok(object) => printed_result(json_text(object)),
        Err(error) => Err(error),
    }
}

/// Puts a contract class and its CASM into one object, or tells which of them is no JSON.
pub fn combine_sierra_and_casm(
    sierra: Result<Value, String>,
    casm: Result<Value, String>,
) -> (object: Result<Value, Error>)
    ensures
        (match object {
            Ok(object) => Ok(object),
            Err(error) => Err(error@),
        }) == combined_result(value_or_message(sierra), value_or_message(casm)),
        object matches Ok(object) ==> json_members(object) == members_by_name(
            sierra_and_casm(sierra->Ok_0, casm->Ok_0),
        ),
{
    match sierra {
        Err(reason) => Err(Error::SierraSerializationFailed { reason }),
        Ok(sierra) => match casm {
            Err(reason) => Err(Error::CasmSerializationFailed { reason }),
            Ok(casm) => {
                let mut members: Vec<(String, Value)> = Vec::new();
                members.push(("sierra".to_owned(), sierra));
                members.push(("casm".to_owned(), casm));
                assert(member_views(members@) =~= sierra_and_casm(sierra, casm));
                Ok(object_of(members))
            },
        },
    }
}

/// What is returned once a JSON text was printed, or could not be printed.
pub fn finish_printing(printed: Result<String, String>) -> (result: Result<String, Error>)
    ensures
        text_result(result) == printed_result(text_or_message(printed)),
{
    match printed {
        Ok(text) => Ok(text),
        Err(reason) => Err(Error::SerializationFailed { reason }),
    }
}

/// Prints a contract class.
pub fn print_contract(class: &ContractClass) -> (result: Result<String, Error>)
    ensures
        text_result(result) == Ok::<Seq<char>, ErrorView>(class_text(*class)),
{
    finish_printing(print_class(class))
}

/// Prints a contract class and its CASM as one JSON object.
pub fn print_sierra_and_casm(class: &ContractClass, casm: &CasmContractClass) -> (result: Result<
    String,
    Error,
>)
    ensures
        text_result(result) == sierra_and_casm_result(*class, *casm),
{
    match combine_sierra_and_casm(value_of_class(class), value_of_casm(casm)) {
        Ok(object) => finish_printing(print_value(&object)),
        Err(error) => Err(error),
    }
}

/// What a compilation is asked to do.
#[derive(Debug)]
pub struct StarknetOptions {
    pub allow_warnings: bool,
    /// Whether names in the Sierra program are made readable.
    pub replace_ids: bool,
    /// Whether the contract is compiled on to CASM.
    pub output_casm: bool,
    /// The contract that is compiled, where there are several.
    pub contract_path: Option<String>,
    /// The library functions that the contract may use.
    pub list_selector: ListSelector,
}

/// What [`StarknetOptions`] hold.
#[verifier::ext_equal]
pub struct StarknetOptionsView {
    pub allow_warnings: bool,
    pub replace_ids: bool,
    pub output_casm: bool,
    pub contract_path: Option<Seq<char>>,
    pub list_selector: ListSelectorView,
}

impl View for StarknetOptions {
    type V = StarknetOptionsView;

    open spec fn view(&self) -> StarknetOptionsView {
        StarknetOptionsView {
            allow_warnings: self.allow_warnings,
            replace_ids: self.replace_ids,
            output_casm: self.output_casm,
            contract_path: optional_text(self.contract_path),
            list_selector: self.list_selector@,
        }
    }
}

/// How far a compilation has come. Once there is a contract class, every stage holds it, with the
/// program that was extracted from it.
pub enum StarknetStage {
    BuildDatabase,
    CheckDiagnostics,
    CompileContract,
    ValidateLibfuncs { class: ContractClass, program: ExtractedSierraProgram },
    CompileToCasm { class: ContractClass, program: ExtractedSierraProgram },
    Finished(Result<String, Error>),
}

/// What a [`StarknetStage`] holds.
pub enum StarknetStageView {
    BuildDatabase,
    CheckDiagnostics,
    CompileContract,
    ValidateLibfuncs { class: ContractClass, program: ExtractedSierraProgram },
    CompileToCasm { class: ContractClass, program: ExtractedSierraProgram },
    Finished(Result<Seq<char>, ErrorView>),
}

impl View for StarknetStage {
    type V = StarknetStageView;

    open spec fn view(&self) -> StarknetStageView {
        match *self {
            StarknetStage::BuildDatabase => StarknetStageView::BuildDatabase,
            StarknetStage::CheckDiagnostics => StarknetStageView::CheckDiagnostics,
            StarknetStage::CompileContract => StarknetStageView::CompileContract,
            StarknetStage::ValidateLibfuncs { class, program } => {
                StarknetStageView::ValidateLibfuncs { class, program }
            },
            StarknetStage::CompileToCasm { class, program } => {
                StarknetStageView::CompileToCasm { class, program }
            },
            StarknetStage::Finished(result) => StarknetStageView::Finished(text_result(result)),
        }
    }
}

/// What is to be done next. What a contract is called and which list is allowed stand in the
/// options of the session, and the contract class and its program in its stage.
#[derive(Clone, Copy, Debug, PartialEq, Eq)]
pub enum StarknetAction {
    /// Build the database that the session describes.
    BuildDatabase,
    /// Collect the diagnostics of the main crates.
    CheckDiagnostics { allow_warnings: bool },
    /// Compile the contract to its class.
    CompileContract { replace_ids: bool, allow_warnings: bool },
    /// Hold the program that the session holds to the list of library functions.
    ValidateLibfuncs,
    /// Compile the class that the session holds to CASM, with the program that it holds.
    CompileToCasm { add_pythonic_hints: bool, max_bytecode_size: usize },
    /// Nothing: the compilation is over.
    Nothing,
}

/// What came of an action. A failure is told by the message of its error.
#[derive(Debug)]
pub enum StarknetEvent {
    DatabaseBuilt(Result<(), String>),
    DiagnosticsChecked { found: bool, diagnostics: String },
    ContractCompiled(Result<ContractClass, String>),
    LibfuncsValidated(Result<(), String>),
    CasmCompiled(Result<CasmContractClass, String>),
}

/// The end of a compilation that a step outside this library put an end to.
pub open spec fn starknet_failed(message: String) -> StarknetStageView {
    StarknetStageView::Finished(Err(ErrorView::Outside { message: message@ }))
}

/// What is done next at a stage.
pub open spec fn starknet_action(
    stage: StarknetStageView,
    options: StarknetOptionsView,
) -> StarknetAction {
    match stage {
        StarknetStageView::BuildDatabase => StarknetAction::BuildDatabase,
        StarknetStageView::CheckDiagnostics => StarknetAction::CheckDiagnostics {
            allow_warnings: options.allow_warnings,
        },
        StarknetStageView::CompileContract => StarknetAction::CompileContract {
            replace_ids: options.replace_ids,
            allow_warnings: options.allow_warnings,
        },
        StarknetStageView::ValidateLibfuncs { class: _, program: _ } => {
            StarknetAction::ValidateLibfuncs
        },
        StarknetStageView::CompileToCasm { class: _, program: _ } => StarknetAction::CompileToCasm {
            add_pythonic_hints: true,
            max_bytecode_size: MAX_BYTECODE_SIZE,
        },
        StarknetStageView::Finished(_) => StarknetAction::Nothing,
    }
}

/// The contract class that a stage holds.
pub open spec fn class_held(stage: StarknetStageView) -> Option<ContractClass> {
    match stage {
        StarknetStageView::ValidateLibfuncs { class, program: _ } => Some(class),
        StarknetStageView::CompileToCasm { class, program: _ } => Some(class),
        _ => None,
    }
}

/// The program that a stage holds.
pub open spec fn program_held(stage: StarknetStageView) -> Option<ExtractedSierraProgram> {
    match stage {
        StarknetStageView::ValidateLibfuncs { class: _, program } => Some(program),
        StarknetStageView::CompileToCasm { class: _, program } => Some(program),
        _ => None,
    }
}

/// The stage once a contract class was compiled: its program is extracted, without debug
/// information, to be held to the list of library functions.
pub open spec fn class_stage(class: ContractClass) -> StarknetStageView {
    match extracted_program(class, false, usize::BITS) {
        Ok(program) => StarknetStageView::ValidateLibfuncs { class, program },
        Err(message) => StarknetStageView::Finished(Err(ErrorView::Outside { message })),
    }
}

/// The stage once the library functions were found to be allowed: the class is printed, or its
/// program is extracted once more, to be compiled on.
pub open spec fn allowed_stage(class: ContractClass, output_casm: bool) -> StarknetStageView {
    if !output_casm {
        StarknetStageView::Finished(Ok(class_text(class)))
    } else {
        match extracted_program(class, false, usize::BITS) {
            Ok(program) => StarknetStageView::CompileToCasm { class, program },
            Err(message) => StarknetStageView::Finished(Err(ErrorView::Outside { message })),
        }
    }
}

/// The stage that follows an event, if the event is one that the stage waits for.
pub open spec fn starknet_next(
    stage: StarknetStageView,
    options: StarknetOptionsView,
    event: StarknetEvent,
) -> Option<StarknetStageView> {
    match (stage, event) {
        (StarknetStageView::BuildDatabase, StarknetEvent::DatabaseBuilt(built)) => match built {
            Ok(_) => Some(StarknetStageView::CheckDiagnostics),
            Err(message) => Some(starknet_failed(message)),
        },
        (
            StarknetStageView::CheckDiagnostics,
            StarknetEvent::DiagnosticsChecked { found, diagnostics },
        ) => if found {
            Some(
                StarknetStageView::Finished(
                    Err(
                        ErrorView::FailedToCompile {
                            message: "failed to compile:\n"@ + diagnostics@,
                        },
                    ),
                ),
            )
        } else {
            Some(StarknetStageView::CompileContract)
        },
        (StarknetStageView::CompileContract, StarknetEvent::ContractCompiled(compiled)) => match compiled {
            Ok(class) => Some(class_stage(class)),
            Err(message) => Some(starknet_failed(message)),
        },
        (
            StarknetStageView::ValidateLibfuncs { class, program: _ },
            StarknetEvent::LibfuncsValidated(validated),
        ) => match validated {
            Ok(_) => Some(allowed_stage(class, options.output_casm)),
            Err(message) => Some(starknet_failed(message)),
        },
        (
            StarknetStageView::CompileToCasm { class, program: _ },
            StarknetEvent::CasmCompiled(compiled),
        ) => match compiled {
            Ok(casm) => Some(StarknetStageView::Finished(sierra_and_casm_result(class, casm))),
            Err(reason) => Some(
                StarknetStageView::Finished(
                    Err(ErrorView::CasmCompilationFailed { reason: reason@ }),
                ),
            ),
        },
        _ => None,
    }
}

/// A compilation of a contract: its project, what is asked for, and how far it has come.
pub struct StarknetSession {
    pub database: RootDatabase,
    pub main_crates: Vec<CrateInput>,
    pub options: StarknetOptions,
    pub stage: StarknetStage,
}

/// A compilation that has just begun.
pub open spec fn begins(
    session: StarknetSession,
    database: RootDatabaseView,
    main_crate: CrateInputView,
    options: StarknetOptionsView,
) -> bool {
    &&& session.database.well_formed()
    &&& session.database@ == database
    &&& crate_views(session.main_crates@) == seq![main_crate]
    &&& session.options@ == options
    &&& session.stage@ == StarknetStageView::BuildDatabase
}

impl StarknetSession {
    /// What is to be done next.
    pub fn action(&self) -> (action: StarknetAction)
        ensures
            action == starknet_action(self.stage@, self.options@),
            self.stage is CheckDiagnostics ==> action == (StarknetAction::CheckDiagnostics {
                allow_warnings: self.options.allow_warnings,
            }),
            self.stage is CompileContract ==> action == (StarknetAction::CompileContract {
                replace_ids: self.options.replace_ids,
                allow_warnings: self.options.allow_warnings,
            }),
            self.stage is CompileToCasm ==> action == (StarknetAction::CompileToCasm {
                add_pythonic_hints: true,
                max_bytecode_size: 180000,
            }),
    {
        match &self.stage {
            StarknetStage::BuildDatabase => StarknetAction::BuildDatabase,
            StarknetStage::CheckDiagnostics => StarknetAction::CheckDiagnostics {
                allow_warnings: self.options.allow_warnings,
            },
            StarknetStage::CompileContract => StarknetAction::CompileContract {
                replace_ids: self.options.replace_ids,
                allow_warnings: self.options.allow_warnings,
            },
            StarknetStage::ValidateLibfuncs { class: _, program: _ } => {
                StarknetAction::ValidateLibfuncs
            },
            StarknetStage::CompileToCasm { class: _, program: _ } => StarknetAction::CompileToCasm {
                add_pythonic_hints: true,
                max_bytecode_size: MAX_BYTECODE_SIZE,
            },
            StarknetStage::Finished(_) => StarknetAction::Nothing,
        }
    }

    /// The contract class that the session holds: the one that was compiled, until the end.
    pub fn class(&self) -> (class: Option<&ContractClass>)
        ensures
            (match class {
                Some(class) => Some(*class),
                None => None,
            }) == class_held(self.stage@),
    {
        match &self.stage {
            StarknetStage::ValidateLibfuncs { class, program: _ } => Some(class),
            StarknetStage::CompileToCasm { class, program: _ } => Some(class),
            _ => None,
        }
    }

    /// The program that the session holds: the one that was extracted last.
    pub fn program(&self) -> (program: Option<&ExtractedSierraProgram>)
        ensures
            (match program {
                Some(program) => Some(*program),
                None => None,
            }) == program_held(self.stage@),
    {
        match &self.stage {
            StarknetStage::ValidateLibfuncs { class: _, program } => Some(program),
            StarknetStage::CompileToCasm { class: _, program } => Some(program),
            _ => None,
        }
    }

    /// Takes note of what came of the last action. An event that the compilation does not wait for
    /// is not taken, and changes nothing.
    pub fn advance(&mut self, event: StarknetEvent) -> (taken: bool)
        ensures
            taken <==> starknet_next(old(self).stage@, old(self).options@, event) is Some,
            taken ==> final(self).stage@ == starknet_next(
                old(self).stage@,
                old(self).options@,
                event,
            )->0,
            !taken ==> final(self).stage == old(self).stage,
            final(self).database == old(self).database,
            final(self).main_crates == old(self).main_crates,
            final(self).options == old(self).options,
    {
        let output_casm = self.options.output_casm;
        let mut stage = StarknetStage::BuildDatabase;
        std::mem::swap(&mut self.stage, &mut stage);
        let next = match (stage, event) {
            (StarknetStage::BuildDatabase, StarknetEvent::DatabaseBuilt(built)) => match built {
                Ok(_) => StarknetStage::CheckDiagnostics,
                Err(message) => StarknetStage::Finished(Err(Error::Outside { message })),
            },
            (
                StarknetStage::CheckDiagnostics,
                StarknetEvent::DiagnosticsChecked { found, diagnostics },
            ) => if found {
                let message = followed_by("failed to compile:\n", diagnostics.as_str());
                StarknetStage::Finished(Err(Error::FailedToCompile { message }))
            } else {
                StarknetStage::CompileContract
            },
            (StarknetStage::CompileContract, StarknetEvent::ContractCompiled(compiled)) => match compiled {
                Ok(class) => match extract_program(&class, false) {
                    Ok(program) => StarknetStage::ValidateLibfuncs { class, program },
                    Err(message) => StarknetStage::Finished(Err(Error::Outside { message })),
                },
                Err(message) => StarknetStage::Finished(Err(Error::Outside { message })),
            },
            (
                StarknetStage::ValidateLibfuncs { class, program: _ },
                StarknetEvent::LibfuncsValidated(validated),
            ) => match validated {
                Ok(_) => if output_casm {
                    match extract_program(&class, false) {
                        Ok(program) => StarknetStage::CompileToCasm { class, program },
                        Err(message) => StarknetStage::Finished(Err(Error::Outside { message })),
                    }
                } else {
                    StarknetStage::Finished(print_contract(&class))
                },
                Err(message) => StarknetStage::Finished(Err(Error::Outside { message })),
            },
            (
                StarknetStage::CompileToCasm { class, program: _ },
                StarknetEvent::CasmCompiled(compiled),
            ) => match compiled {
                Ok(casm) => StarknetStage::Finished(print_sierra_and_casm(&class, &casm)),
                Err(reason) => StarknetStage::Finished(Err(Error::CasmCompilationFailed { reason })),
            },
            (other, _) => {
                self.stage = other;
                return false;
            },
        };
        self.stage = next;
        true
    }
}

/// The options of a compilation, from the arguments that it is asked for with.
pub open spec fn starknet_options(
    allow_warnings: bool,
    replace_ids: bool,
    output_casm: bool,
    contract_path: Option<String>,
    list_name: Option<String>,
    list_file: Option<String>,
) -> StarknetOptionsView {
    StarknetOptionsView {
        allow_warnings,
        replace_ids,
        output_casm,
        contract_path: optional_text(contract_path),
        list_selector: selected_list(optional_text(list_name), optional_text(list_file))->0,
    }
}

/// A compilation of a contract in a project that is registered in a database. The list of library
/// functions is selected by its name or by its file, not by both.
pub fn compile_starknet_prepared(
    database: RootDatabase,
    main_crates: Vec<CrateInput>,
    allow_warnings: bool,
    replace_ids: bool,
    output_casm: bool,
    contract_path: Option<String>,
    allowed_libfuncs_list_name: Option<String>,
    allowed_libfuncs_list_file: Option<String>,
) -> (session: StarknetSession)
    requires
        allowed_libfuncs_list_name is None || allowed_libfuncs_list_file is None,
    ensures
        session.database == database,
        session.main_crates == main_crates,
        session.options@ == starknet_options(
            allow_warnings,
            replace_ids,
            output_casm,
            contract_path,
            allowed_libfuncs_list_name,
            allowed_libfuncs_list_file,
        ),
        session.options.allow_warnings == allow_warnings,
        session.options.replace_ids == replace_ids,
        session.options.output_casm == output_casm,
        session.options.contract_path == contract_path,
        session.stage@ == StarknetStageView::BuildDatabase,
{
    let selector = select_list(allowed_libfuncs_list_name, allowed_libfuncs_list_file);
    let list_selector = selector.unwrap();
    StarknetSession {
        database,
        main_crates,
        options: StarknetOptions {
            allow_warnings,
            replace_ids,
            output_casm,
            contract_path,
            list_selector,
        },
        stage: StarknetStage::BuildDatabase,
    }
}

/// The database that a compilation of a contract starts from.
pub open spec fn starknet_database(corelib: EmbeddedDir) -> RootDatabaseView {
    with_corelib(
        RootDatabaseView { plugin_suites: seq![PluginSuite::Starknet], ..empty_database() },
        corelib,
    )
}

/// The database that a compilation of a contract starts from.
fn new_starknet_database(corelib: &EmbeddedDir) -> (db: RootDatabase)
    requires
        corelib.is_text(),
    ensures
        db.well_formed(),
        db@ == starknet_database(*corelib),
{
    let mut db = RootDatabase::new();
    db.with_default_plugin_suite(PluginSuite::Starknet);
    assert(db@.plugin_suites =~= seq![PluginSuite::Starknet]);
    init_corelib(&mut db, corelib);
    db
}

/// Begins the compilation of a contract in a program that is a single text.
pub fn starknet_wasm_compile_with_input_string(
    input_program_string: &str,
    allow_warnings: bool,
    replace_ids: bool,
    output_casm: bool,
    contract_path: Option<String>,
    allowed_libfuncs_list_name: Option<String>,
    allowed_libfuncs_list_file: Option<String>,
    corelib: &EmbeddedDir,
) -> (session: Result<StarknetSession, Error>)
    requires
        allowed_libfuncs_list_name is None || allowed_libfuncs_list_file is None,
        corelib.is_text(),
    ensures
        session matches Ok(session) && begins(
            session,
            with_single_file_project(
                starknet_database(*corelib),
                Some(Seq::empty()),
                input_program_string@,
            ),
            plain_crate(single_file_crate()),
            starknet_options(
                allow_warnings,
                replace_ids,
                output_casm,
                contract_path,
                allowed_libfuncs_list_name,
                allowed_libfuncs_list_file,
            ),
        ),
        session->Ok_0.options.allow_warnings == allow_warnings,
        session->Ok_0.options.replace_ids == replace_ids,
        session->Ok_0.options.output_casm == output_casm,
        session->Ok_0.database.plugin_suites@ == seq![PluginSuite::Starknet],
{
    let mut db = new_starknet_database(corelib);
    let ghost before = db@;
    match setup_project_with_input_string(&mut db, "astro.cairo", input_program_string) {
        Ok(main_crates) => {
            proof {
                let parent = choose|parent: Option<Seq<char>>| #[trigger]
                    may_be_parent("astro.cairo"@, parent) && db@ == with_single_file_project(
                        before,
                        parent,
                        input_program_string@,
                    );
                lemma_astro_parent(parent);
            }
            Ok(
                compile_starknet_prepared(
                    db,
                    main_crates,
                    allow_warnings,
                    replace_ids,
                    output_casm,
                    contract_path,
                    allowed_libfuncs_list_name,
                    allowed_libfuncs_list_file,
                ),
            )
        },
        Err(error) => Err(error),
    }
}

/// Begins the compilation of a contract in a project that is a set of files.
pub fn starknet_wasm_compile_with_virtual_files(
    project_name: &str,
    files: &Vec<(String, String)>,
    allow_warnings: bool,
    replace_ids: bool,
    output_casm: bool,
    contract_path: Option<String>,
    allowed_libfuncs_list_name: Option<String>,
    allowed_libfuncs_list_file: Option<String>,
    corelib: &EmbeddedDir,
) -> (session: Result<StarknetSession, Error>)
    requires
        allowed_libfuncs_list_name is None || allowed_libfuncs_list_file is None,
        corelib.is_text(),
    ensures
        session matches Ok(session) && begins(
            session,
            with_virtual_project(
                starknet_database(*corelib),
                project_name@,
                file_texts(files@),
            ),
            plain_crate(project_name@),
            starknet_options(
                allow_warnings,
                replace_ids,
                output_casm,
                contract_path,
                allowed_libfuncs_list_name,
                allowed_libfuncs_list_file,
            ),
        ),
        session->Ok_0.options.allow_warnings == allow_warnings,
        session->Ok_0.options.replace_ids == replace_ids,
        session->Ok_0.options.output_casm == output_casm,
        session->Ok_0.database.plugin_suites@ == seq![PluginSuite::Starknet],
{
    let mut db = new_starknet_database(corelib);
    let main_crates = setup_virtual_project(&mut db, project_name, files);
    Ok(
        compile_starknet_prepared(
            db,
            main_crates,
            allow_warnings,
            replace_ids,
            output_casm,
            contract_path,
            allowed_libfuncs_list_name,
            allowed_libfuncs_list_file,
        ),
    )
}

/// Begins the compilation of a contract in a project that is a set of files and depends on other
/// crates.
pub fn starknet_wasm_compile_with_virtual_files_and_deps(
    project_name: &str,
    files: &Vec<(String, String)>,
    dependencies: &Vec<(String, DependencyInput)>,
    allow_warnings: bool,
    replace_ids: bool,
    output_casm: bool,
    contract_path: Option<String>,
    allowed_libfuncs_list_name: Option<String>,
    allowed_libfuncs_list_file: Option<String>,
    corelib: &EmbeddedDir,
) -> (session: Result<StarknetSession, Error>)
    requires
        allowed_libfuncs_list_name is None || allowed_libfuncs_list_file is None,
        corelib.is_text(),
    ensures
        session matches Ok(session) && begins(
            session,
            with_virtual_project_and_deps(
                starknet_database(*corelib),
                project_name@,
                file_texts(files@),
                dependency_views(dependencies@),
            ),
            plain_crate(project_name@),
            starknet_options(
                allow_warnings,
                replace_ids,
                output_casm,
                contract_path,
                allowed_libfuncs_list_name,
                allowed_libfuncs_list_file,
            ),
        ),
        session->Ok_0.options.allow_warnings == allow_warnings,
        session->Ok_0.options.replace_ids == replace_ids,
        session->Ok_0.options.output_casm == output_casm,
        session->Ok_0.database.plugin_suites@ == seq![PluginSuite::Starknet],
{
    let mut db = new_starknet_database(corelib);
    let main_crates = setup_virtual_project_with_deps(&mut db, project_name, files, dependencies);
    Ok(
        compile_starknet_prepared(
            db,
            main_crates,
            allow_warnings,
            replace_ids,
            output_casm,
            contract_path,
            allowed_libfuncs_list_name,
            allowed_libfuncs_list_file,
        ),
    )
}

} // verus!
