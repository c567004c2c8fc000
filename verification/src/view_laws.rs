//! What a value is said to hold is what its fields hold, one by one.
use vstd::prelude::*;
use vstd::utf8::valid_utf8;

use cairo_lang_sierra::program::Program;
use cairo_lang_starknet_classes::contract_class::{ContractClass, ExtractedSierraProgram};
use serde_json::Value;

use crate::compile::{CompileStage, CompileStageView};
use crate::config::{
    cfg_options, listed_options, option_texts, version_parts, CrateConfiguration, CrateSettings,
    Version,
};
use crate::database::{crate_views, plain_crate, CrateInput, RootDatabase};
use crate::directory::{file_texts, Directory, DirectoryView, VirtualFile};
use crate::embedded::EmbeddedDir;
use crate::entries::{lemma_found, lemma_lookup_at, lemma_lookup_some};
use crate::error::{text_result, Error, ErrorView};
use crate::project::{dependency_names, dependency_views, DependencyInput};
use crate::run::{self, RunStage, RunStageView};
use crate::starknet::{
    self, member_views, members_by_name, program_or_message, selected_list, text_or_message,
    value_or_message, ListSelector, ListSelectorView, StarknetOptions, StarknetStage,
    StarknetStageView,
};
use crate::test_runner::{outcome_result, TestRunConfig, TestStage, TestStageView, TestsSummary};
use crate::text::optional_text;

verus! {

/// A file in memory holds what its fields hold.
pub proof fn law_file_holds_its_fields(file: VirtualFile)
    ensures
        file@.parent == file.parent,
        file@.name == file.name@,
        file@.content == file.content@,
        file@.code_mappings == file.code_mappings@,
        file@.kind == file.kind,
        file@.original_item_removed == file.original_item_removed,
{
}

/// A directory on the file system is its path. In a directory in memory each file is found under
/// its name, and what stands in a sub-directory is found below the name of the sub-directory.
pub proof fn law_directory_holds_its_entries(
    dir: Directory,
    i: int,
    k: int,
    path: Seq<Seq<char>>,
)
    requires
        dir.well_formed(),
    ensures
        dir matches Directory::Real(place) ==> dir@ == DirectoryView::Real(place@),
        dir matches Directory::Virtual { files, dirs } ==> {
            &&& dir@ is Virtual
            &&& dir@->dirs.contains(Seq::empty())
            &&& !dir@->files.dom().contains(Seq::empty())
            &&& 0 <= i < files@.len() ==> dir@->files.dom().contains(seq![files@[i].0@])
                && dir@->files[seq![files@[i].0@]] == files@[i].1@
            &&& 0 <= k < dirs@.len() && dirs@[k].1 is Virtual && path.len() > 0 ==> {
                let longer = seq![dirs@[k].0@] + path;
                let inner = dirs@[k].1@;
                &&& dir@->files.dom().contains(longer) == inner->files.dom().contains(path)
                &&& inner->files.dom().contains(path) ==> dir@->files[longer] == inner->files[path]
                &&& dir@->dirs.contains(longer) == inner->dirs.contains(path)
                &&& dir@->on_disk.dom().contains(longer) == inner->on_disk.dom().contains(path)
                &&& inner->on_disk.dom().contains(path) ==> dir@->on_disk[longer]
                    == inner->on_disk[path]
            }
            &&& 0 <= k < dirs@.len() ==> dir@->dirs.contains(seq![dirs@[k].0@]) == (
            dirs@[k].1 is Virtual)
            &&& 0 <= k < dirs@.len() ==> (dirs@[k].1 matches Directory::Real(place)
                ==> dir@->on_disk.dom().contains(seq![dirs@[k].0@])
                && dir@->on_disk[seq![dirs@[k].0@]] == place@)
        },
{
    match dir {
        Directory::Real(_) => {},
        Directory::Virtual { files, dirs } => {
            if 0 <= i < files@.len() {
                lemma_lookup_at(files@, i);
            }
            if 0 <= k < dirs@.len() {
                lemma_lookup_at(dirs@, k);
                let longer = seq![dirs@[k].0@] + path;
                assert(longer.drop_first() =~= path);
                let single = seq![dirs@[k].0@];
                assert(single.drop_first() =~= Seq::empty());
                assert(dir.has_dir(single) == dirs@[k].1.has_dir(Seq::empty()));
                assert(dir.disk_at(single) == dirs@[k].1.disk_at(Seq::empty()));
                if path.len() > 0 {
                    assert(dir.file_at(longer) == dirs@[k].1.file_at(path));
                    assert(dir.has_dir(longer) == dirs@[k].1.has_dir(path));
                    assert(dir.disk_at(longer) == dirs@[k].1.disk_at(path));
                }
            }
        },
    }
}

/// Nothing is found in a directory in memory but by names that are used in it.
pub proof fn law_directory_holds_nothing_else(dir: Directory, path: Seq<Seq<char>>)
    requires
        path.len() > 0,
    ensures
        dir matches Directory::Virtual { files, dirs } ==> {
            &&& dir@->files.dom().contains(path) && path.len() == 1 ==> exists|i: int|
                0 <= i < files@.len() && (#[trigger] files@[i]).0@ == path[0]
            &&& dir@->files.dom().contains(path) && path.len() > 1 || dir@->dirs.contains(path)
                || dir@->on_disk.dom().contains(path) ==> exists|k: int|
                0 <= k < dirs@.len() && (#[trigger] dirs@[k]).0@ == path[0]
        },
{
    match dir {
        Directory::Real(_) => {},
        Directory::Virtual { files, dirs } => {
            if dir@->files.dom().contains(path) && path.len() == 1 {
                let i = lemma_lookup_some(files@, path[0]);
                assert(files@[i].0@ == path[0]);
            }
            if dir@->files.dom().contains(path) && path.len() > 1 || dir@->dirs.contains(path)
                || dir@->on_disk.dom().contains(path) {
                let k = lemma_lookup_some(dirs@, path[0]);
                assert(dirs@[k].0@ == path[0]);
            }
        },
    }
}

/// In a directory that is well formed no two files, and no two sub-directories, bear the same name;
/// and one that is in memory has no directory on the file system below it.
pub proof fn law_well_formed_directory_uses_names_once(dir: Directory)
    ensures
        dir.well_formed() <==> (dir matches Directory::Virtual { files, dirs } ==> {
            &&& forall|a: int, b: int|
                0 <= a < b < files@.len() ==> (#[trigger] files@[a]).0@ != (
                #[trigger] files@[b]).0@
            &&& forall|a: int, b: int|
                0 <= a < b < dirs@.len() ==> (#[trigger] dirs@[a]).0@ != (#[trigger] dirs@[b]).0@
            &&& forall|k: int| 0 <= k < dirs@.len() ==> (#[trigger] dirs@[k]).1.well_formed()
        }),
        dir.in_memory() <==> (dir matches Directory::Virtual { files: _, dirs } && forall|k: int|
            0 <= k < dirs@.len() ==> (#[trigger] dirs@[k]).1.in_memory()),
{
}

/// An embedded directory holds text if and only if its files are texts and its sub-directories hold
/// text.
pub proof fn law_embedded_text_is_text_everywhere(embedded: EmbeddedDir)
    ensures
        embedded.is_text() <==> (forall|i: int|
            0 <= i < embedded.files@.len() ==> valid_utf8((#[trigger] embedded.files@[i]).1@)) && (
        forall|k: int|
            0 <= k < embedded.dirs@.len() ==> (#[trigger] embedded.dirs@[k]).1.is_text()),
{
}

/// A list of files is that of their paths and contents, in order.
pub proof fn law_files_are_listed_in_order(files: Seq<(String, String)>)
    ensures
        file_texts(files).len() == files.len(),
        forall|i: int|
            0 <= i < files.len() ==> #[trigger] file_texts(files)[i] == (files[i].0@, files[i].1@),
{
}

/// A list of dependencies is that of their names and inputs, in order, and an input holds what its
/// fields hold.
pub proof fn law_dependencies_are_listed_in_order(
    dependencies: Seq<(String, DependencyInput)>,
    input: DependencyInput,
)
    ensures
        dependency_views(dependencies).len() == dependencies.len(),
        forall|i: int|
            0 <= i < dependencies.len() ==> #[trigger] dependency_views(dependencies)[i] == (
                dependencies[i].0@,
                dependencies[i].1@,
            ),
        dependency_names(dependency_views(dependencies)).len() == dependencies.len(),
        forall|i: int|
            0 <= i < dependencies.len() ==> #[trigger] dependency_names(
                dependency_views(dependencies),
            )[i] == dependencies[i].0@,
        input@.files.len() == input.files@.len(),
        forall|i: int|
            0 <= i < input.files@.len() ==> #[trigger] input@.files[i] == (
                input.files@[i].0@,
                input.files@[i].1@,
            ),
        input.edition is None <==> input@.edition is None,
        input.edition matches Some(name) ==> input@.edition == Some(name@),
        input@.dependencies.len() == input.dependencies@.len(),
        forall|i: int|
            0 <= i < input.dependencies@.len() ==> #[trigger] input@.dependencies[i]
                == input.dependencies@[i]@,
{
}

/// A crate is its name and what tells it apart, and a list of crates is that of each of them, in
/// order. The crate that its name alone stands for has nothing that tells it apart.
pub proof fn law_crates_are_listed_in_order(
    crates: Seq<CrateInput>,
    input: CrateInput,
    name: Seq<char>,
)
    ensures
        crate_views(crates).len() == crates.len(),
        forall|i: int| 0 <= i < crates.len() ==> #[trigger] crate_views(crates)[i] == crates[i]@,
        input@.name == input.name@,
        input.discriminator is None <==> input@.discriminator is None,
        input.discriminator matches Some(text) ==> input@.discriminator == Some(text@),
        plain_crate(name).name == name,
        plain_crate(name).discriminator is None,
{
}

/// A version has the parts that its fields hold.
pub proof fn law_version_has_its_parts(version: Version)
    ensures
        version_parts(Some(version)) == Some(
            (
                version.major,
                version.minor,
                version.patch,
                version.pre@,
                version.build@,
            ),
        ),
        version_parts(None) is None,
{
}

/// The options that a list makes up are those that stand in it.
pub proof fn law_options_are_those_that_are_listed(
    options: Seq<(String, Option<String>)>,
    option: (Seq<char>, Option<Seq<char>>),
)
    ensures
        listed_options(options).contains(option) <==> exists|i: int|
            0 <= i < options.len() && (#[trigger] options[i]).0@ == option.0 && match options[i].1 {
                Some(value) => option.1 == Some(value@),
                None => option.1 is None,
            },
{
    let all = option_texts(options);
    if listed_options(options).contains(option) {
        let i = choose|i: int| 0 <= i < all.len() && all[i] == option;
        assert(options[i].0@ == option.0);
    }
    if exists|i: int|
        0 <= i < options.len() && (#[trigger] options[i]).0@ == option.0 && match options[i].1 {
            Some(value) => option.1 == Some(value@),
            None => option.1 is None,
        } {
        let i = choose|i: int|
            0 <= i < options.len() && (#[trigger] options[i]).0@ == option.0 && match options[i].1 {
                Some(value) => option.1 == Some(value@),
                None => option.1 is None,
            };
        assert(all[i] == option);
    }
}

/// Settings hold what their fields hold, and each dependency is found under its name.
pub proof fn law_settings_hold_their_fields(settings: CrateSettings, name: Seq<char>, i: int)
    requires
        settings.well_formed(),
    ensures
        settings.name is None <==> settings@.name is None,
        settings.name matches Some(text) ==> settings@.name == Some(text@),
        settings@.edition == settings.edition,
        settings.version is None <==> settings@.version is None,
        settings.version matches Some(version) ==> settings@.version == Some(
            (
                version.major,
                version.minor,
                version.patch,
                version.pre@,
                version.build@,
            ),
        ),
        settings.cfg_set is None <==> settings@.cfg_set is None,
        settings.cfg_set matches Some(set) ==> settings@.cfg_set == Some(cfg_options(set)),
        settings@.experimental_features == settings.experimental_features,
        settings@.dependencies.dom().contains(name) <==> exists|k: int|
            0 <= k < settings.dependencies@.len() && (#[trigger] settings.dependencies@[k]).0@
                == name,
        0 <= i < settings.dependencies@.len() ==> match settings.dependencies@[i].1.discriminator {
            Some(text) => settings@.dependencies[settings.dependencies@[i].0@] == Some(text@),
            None => settings@.dependencies[settings.dependencies@[i].0@] is None,
        },
        forall|a: int, b: int|
            0 <= a < b < settings.dependencies@.len() ==> (
            #[trigger] settings.dependencies@[a]).0@ != (#[trigger] settings.dependencies@[b]).0@,
{
    let entries = settings.dependencies@;
    if settings@.dependencies.dom().contains(name) {
        let k = lemma_lookup_some(entries, name);
        assert(entries[k].0@ == name);
    }
    if exists|k: int| 0 <= k < entries.len() && (#[trigger] entries[k]).0@ == name {
        let k = choose|k: int| 0 <= k < entries.len() && (#[trigger] entries[k]).0@ == name;
        lemma_found(entries, k);
    }
    if 0 <= i < entries.len() {
        lemma_lookup_at(entries, i);
    }
}

/// A configuration holds what its fields hold.
pub proof fn law_configuration_holds_its_fields(config: CrateConfiguration)
    ensures
        config@.root == config.root@,
        config@.settings == config.settings@,
        config.cache_file is None <==> config@.cache_file is None,
        config.cache_file matches Some(path) ==> config@.cache_file == Some(path@),
        config.well_formed() <==> config.root.well_formed() && config.settings.well_formed(),
{
}

/// A database describes what its fields hold: each crate is configured under its name, and the
/// overrides stand in the order in which they are put in place.
pub proof fn law_database_describes_its_fields(db: RootDatabase, name: Seq<char>, i: int)
    requires
        db.well_formed(),
    ensures
        db@.auto_withdraw_gas == db.auto_withdraw_gas,
        db.cfg_set is None <==> db@.cfg_set is None,
        db.cfg_set matches Some(set) ==> db@.cfg_set == Some(cfg_options(set)),
        db@.plugin_suites == db.plugin_suites@,
        db@.crate_configs.dom().contains(name) <==> exists|k: int|
            0 <= k < db.crate_configs@.len() && (#[trigger] db.crate_configs@[k]).0@ == name,
        0 <= i < db.crate_configs@.len() ==> db@.crate_configs[db.crate_configs@[i].0@]
            == db.crate_configs@[i].1@ && db.crate_configs@[i].1.well_formed(),
        db@.file_overrides.len() == db.file_overrides@.len(),
        0 <= i < db.file_overrides@.len() ==> db@.file_overrides[i] == (
            db.file_overrides@[i].0@,
            db.file_overrides@[i].1@,
        ),
        forall|a: int, b: int|
            0 <= a < b < db.crate_configs@.len() ==> (#[trigger] db.crate_configs@[a]).0@ != (
            #[trigger] db.crate_configs@[b]).0@,
        forall|a: int, b: int|
            0 <= a < b < db.file_overrides@.len() ==> (#[trigger] db.file_overrides@[a]).0@ != (
            #[trigger] db.file_overrides@[b]).0@,
{
    let entries = db.crate_configs@;
    if db@.crate_configs.dom().contains(name) {
        let k = lemma_lookup_some(entries, name);
        assert(entries[k].0@ == name);
    }
    if exists|k: int| 0 <= k < entries.len() && (#[trigger] entries[k]).0@ == name {
        let k = choose|k: int| 0 <= k < entries.len() && (#[trigger] entries[k]).0@ == name;
        lemma_found(entries, k);
    }
    if 0 <= i < entries.len() {
        lemma_lookup_at(entries, i);
    }
}

/// An error is of its own sort, and holds the text of its field.
pub proof fn law_error_holds_its_field(error: Error)
    ensures
        match error {
            Error::FailedToCompile { message } => error@ == (ErrorView::FailedToCompile {
                message: message@,
            }),
            Error::NoSierraProgram => error@ == ErrorView::NoSierraProgram,
            Error::GasCounterRequired => error@ == ErrorView::GasCounterRequired,
            Error::CasmCompilationFailed { reason } => error@ == (
            ErrorView::CasmCompilationFailed { reason: reason@ }),
            Error::SierraSerializationFailed { reason } => error@ == (
            ErrorView::SierraSerializationFailed { reason: reason@ }),
            Error::CasmSerializationFailed { reason } => error@ == (
            ErrorView::CasmSerializationFailed { reason: reason@ }),
            Error::SerializationFailed { reason } => error@ == (ErrorView::SerializationFailed {
                reason: reason@,
            }),
            Error::Outside { message } => error@ == (ErrorView::Outside { message: message@ }),
        },
{
}

/// A result is the value that it holds, or the error.
pub proof fn law_results_hold_values_or_errors(
    text: String,
    error: Error,
    value: Value,
    program: ExtractedSierraProgram,
    outcome: Option<TestsSummary>,
)
    ensures
        text_result(Ok(text)) == Ok::<Seq<char>, ErrorView>(text@),
        text_result(Err(error)) == Err::<Seq<char>, ErrorView>(error@),
        text_or_message(Ok(text)) == Ok::<Seq<char>, Seq<char>>(text@),
        text_or_message(Err(text)) == Err::<Seq<char>, Seq<char>>(text@),
        value_or_message(Ok(value)) == Ok::<Value, Seq<char>>(value),
        value_or_message(Err(text)) == Err::<Value, Seq<char>>(text@),
        program_or_message(Ok(program)) == Ok::<ExtractedSierraProgram, Seq<char>>(program),
        program_or_message(Err(text)) == Err::<ExtractedSierraProgram, Seq<char>>(text@),
        outcome_result(Ok(outcome)) == Ok::<Option<TestsSummary>, ErrorView>(outcome),
        outcome_result(Err(error)) == Err::<Option<TestsSummary>, ErrorView>(error@),
        optional_text(Some(text)) == Some(text@),
        optional_text(None) is None,
{
}

/// A stage holds what it is said to hold.
pub proof fn law_stages_hold_their_fields<P>(
    run: RunStage,
    compilation: CompileStage<P>,
    contract: StarknetStage,
    test: TestStage,
)
    ensures
        match run {
            RunStage::BuildDatabase => run@ == RunStageView::BuildDatabase,
            RunStage::CheckDiagnostics => run@ == RunStageView::CheckDiagnostics,
            RunStage::GenerateSierra => run@ == RunStageView::GenerateSierra,
            RunStage::CollectContracts { program } => run@ == (RunStageView::CollectContracts {
                program,
            }),
            RunStage::CreateRunner { program } => run@ == (RunStageView::CreateRunner { program }),
            RunStage::FindMain => run@ == RunStageView::FindMain,
            RunStage::Execute => run@ == RunStageView::Execute,
            RunStage::Finished(Ok(text)) => run@ == RunStageView::Finished(Ok(text@)),
            RunStage::Finished(Err(error)) => run@ == RunStageView::Finished(Err(error@)),
        },
        match compilation {
            CompileStage::BuildDatabase => compilation@ == CompileStageView::<P>::BuildDatabase,
            CompileStage::CheckDiagnostics => compilation@
                == CompileStageView::<P>::CheckDiagnostics,
            CompileStage::CompileProgram => compilation@ == CompileStageView::<P>::CompileProgram,
            CompileStage::Finished(Ok(program)) => compilation@ == CompileStageView::Finished(
                Ok(program),
            ),
            CompileStage::Finished(Err(error)) => compilation@ == CompileStageView::<P>::Finished(
                Err(error@),
            ),
        },
        match contract {
            StarknetStage::BuildDatabase => contract@ == StarknetStageView::BuildDatabase,
            StarknetStage::CheckDiagnostics => contract@ == StarknetStageView::CheckDiagnostics,
            StarknetStage::CompileContract => contract@ == StarknetStageView::CompileContract,
            StarknetStage::ValidateLibfuncs { class, program } => contract@ == (
            StarknetStageView::ValidateLibfuncs { class, program }),
            StarknetStage::CompileToCasm { class, program } => contract@ == (
            StarknetStageView::CompileToCasm { class, program }),
            StarknetStage::Finished(Ok(text)) => contract@ == StarknetStageView::Finished(
                Ok(text@),
            ),
            StarknetStage::Finished(Err(error)) => contract@ == StarknetStageView::Finished(
                Err(error@),
            ),
        },
        match test {
            TestStage::BuildDatabase => test@ == TestStageView::BuildDatabase,
            TestStage::RunTests => test@ == TestStageView::RunTests,
            TestStage::Finished(Ok(outcome)) => test@ == TestStageView::Finished(Ok(outcome)),
            TestStage::Finished(Err(error)) => test@ == TestStageView::Finished(Err(error@)),
        },
{
}

/// A stage holds a program, and a contract class with its program, from when there is one until it
/// is no longer needed.
pub proof fn law_stages_hold_programs(
    program: Program,
    class: ContractClass,
    extracted: ExtractedSierraProgram,
)
    ensures
        run::program_held(RunStageView::CollectContracts { program }) == Some(program),
        run::program_held(RunStageView::CreateRunner { program }) == Some(program),
        run::program_held(RunStageView::BuildDatabase) is None,
        run::program_held(RunStageView::CheckDiagnostics) is None,
        run::program_held(RunStageView::GenerateSierra) is None,
        run::program_held(RunStageView::FindMain) is None,
        run::program_held(RunStageView::Execute) is None,
        starknet::class_held(StarknetStageView::ValidateLibfuncs { class, program: extracted })
            == Some(class),
        starknet::class_held(StarknetStageView::CompileToCasm { class, program: extracted })
            == Some(class),
        starknet::program_held(StarknetStageView::ValidateLibfuncs { class, program: extracted })
            == Some(extracted),
        starknet::program_held(StarknetStageView::CompileToCasm { class, program: extracted })
            == Some(extracted),
        starknet::class_held(StarknetStageView::BuildDatabase) is None,
        starknet::class_held(StarknetStageView::CheckDiagnostics) is None,
        starknet::class_held(StarknetStageView::CompileContract) is None,
        starknet::program_held(StarknetStageView::BuildDatabase) is None,
        starknet::program_held(StarknetStageView::CheckDiagnostics) is None,
        starknet::program_held(StarknetStageView::CompileContract) is None,
{
}

/// Options and configurations hold what their fields hold.
pub proof fn law_options_hold_their_fields(options: StarknetOptions, config: TestRunConfig)
    ensures
        options@.allow_warnings == options.allow_warnings,
        options@.replace_ids == options.replace_ids,
        options@.output_casm == options.output_casm,
        options.contract_path is None <==> options@.contract_path is None,
        options.contract_path matches Some(path) ==> options@.contract_path == Some(path@),
        match options.list_selector {
            ListSelector::ListName(name) => options@.list_selector == ListSelectorView::ListName(
                name@,
            ),
            ListSelector::ListFile(path) => options@.list_selector == ListSelectorView::ListFile(
                path@,
            ),
            ListSelector::DefaultList => options@.list_selector == ListSelectorView::DefaultList,
        },
        config@.filter == config.filter@,
        config@.include_ignored == config.include_ignored,
        config@.ignored == config.ignored,
        config@.profiler_config == config.profiler_config,
        config@.gas_enabled == config.gas_enabled,
        config@.print_resource_usage == config.print_resource_usage,
{
}

/// A list of library functions is selected by its name or by its file, and the default one if
/// neither is given. None is if both are.
pub proof fn law_list_is_selected_by_name_or_by_file(name: Seq<char>, path: Seq<char>)
    ensures
        selected_list(Some(name), None) == Some(ListSelectorView::ListName(name)),
        selected_list(None, Some(path)) == Some(ListSelectorView::ListFile(path)),
        selected_list(None, None) == Some(ListSelectorView::DefaultList),
        selected_list(Some(name), Some(path)) is None,
{
}

/// The members of an object are found under their names. Of two that bear one name the later one
/// counts.
pub proof fn law_members_are_found_under_their_names(members: Seq<(Seq<char>, Value)>, i: int)
    requires
        0 <= i < members.len(),
        forall|j: int| i < j < members.len() ==> (#[trigger] members[j]).0 != members[i].0,
    ensures
        members_by_name(members).dom().contains(members[i].0),
        members_by_name(members)[members[i].0] == members[i].1,
    decreases members.len(),
{
    if i < members.len() - 1 {
        let before = members.drop_last();
        assert(members[members.len() - 1].0 != members[i].0);
        assert(before[i] == members[i]);
        assert forall|j: int| i < j < before.len() implies (#[trigger] before[j]).0
            != before[i].0 by {
            assert(before[j] == members[j]);
        }
        law_members_are_found_under_their_names(before, i);
    }
}

/// The members of an object are those that are listed, in order.
pub proof fn law_members_are_listed_in_order(members: Seq<(String, Value)>, name: Seq<char>)
    ensures
        member_views(members).len() == members.len(),
        forall|i: int|
            0 <= i < members.len() ==> #[trigger] member_views(members)[i] == (
                members[i].0@,
                members[i].1,
            ),
        members_by_name(member_views(members)).dom().contains(name) ==> exists|i: int|
            0 <= i < members.len() && (#[trigger] members[i]).0@ == name,
    decreases members.len(),
{
    if members.len() > 0 {
        let before = members.drop_last();
        law_members_are_listed_in_order(before, name);
        assert(member_views(members).drop_last() =~= member_views(before));
        if members_by_name(member_views(members)).dom().contains(name) {
            if members[members.len() - 1].0@ != name {
                let i = choose|i: int|
                    0 <= i < before.len() && (#[trigger] before[i]).0@ == name;
                assert(members[i].0@ == name);
            }
        }
    }
}

} // verus!
