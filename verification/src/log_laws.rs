//! What holds of the texts that a user sees: logs of runs, errors, and results of tests.
use vstd::prelude::*;

use crate::compile::diagnostics_error;
use crate::error::ErrorView;
use crate::number::{decimal, hexadecimal, Felt252};
use crate::run::{cells_log, moves_gas, run_log, some_moves_gas, RunResultStarknet, RunResultValue};
use crate::test_runner::{formatted, outcome_text, TestsSummary};
use crate::text::{joined, texts};

verus! {

/// The log of a run that ended well lists the values in base 16, in the order in which they were
/// returned.
pub proof fn law_returned_values_are_logged(result: RunResultStarknet, items: Seq<Seq<char>>)
    requires
        result.value matches RunResultValue::Success(values) && items.len() == values@.len() && (
        forall|i: int|
            0 <= i < items.len() ==> #[trigger] items[i] == hexadecimal(values@[i].value())),
        result.gas_counter is None,
    ensures
        run_log(result, false) == "Run completed successfully, returning ["@ + joined(items, ", "@)
            + "]\n"@,
{
    reveal_strlit("Run completed successfully, returning [");
    reveal_strlit("Run completed successfully, returning ");
    reveal_strlit("[");
    reveal_strlit("]\n");
    reveal_strlit("]");
    reveal_strlit("\n");
    let values = result.value->Success_0@;
    assert(items =~= values.map_values(|v: Felt252| hexadecimal(v.value())));
    assert("Run completed successfully, returning ["@ =~= "Run completed successfully, returning "@
        + "["@);
    assert("]\n"@ =~= "]"@ + "\n"@);
    assert(run_log(result, false) =~= "Run completed successfully, returning ["@ + joined(
        items,
        ", "@,
    ) + "]\n"@);
}

/// The log of a run that panicked lists the items of the panic data, as they are.
pub proof fn law_panic_data_is_logged(result: RunResultStarknet)
    requires
        result.value is Panic,
        result.gas_counter is None,
    ensures
        run_log(result, false) == "Run panicked with ["@ + joined(
            texts(result.value->Panic_0@),
            ", "@,
        ) + "].\n"@,
{
}

/// The gas that is left is told after how the run ended, and the memory after that. Neither changes
/// what is told before it.
pub proof fn law_log_is_added_to(result: RunResultStarknet, plain: RunResultStarknet)
    requires
        plain.value == result.value,
        plain.gas_counter is None,
    ensures
        result.gas_counter is None ==> run_log(result, false) == run_log(plain, false),
        result.gas_counter matches Some(gas) ==> run_log(result, false) == run_log(plain, false)
            + "Remaining gas: "@ + decimal(gas.value()) + "\n"@,
        run_log(result, true) == run_log(result, false) + "Full memory: ["@ + cells_log(
            result.memory@,
        ) + "]\n"@,
{
    assert(run_log(result, true) =~= run_log(result, false) + "Full memory: ["@ + cells_log(
        result.memory@,
    ) + "]\n"@);
    match result.gas_counter {
        Some(gas) => {
            assert(run_log(result, false) =~= run_log(plain, false) + "Remaining gas: "@ + decimal(
                gas.value(),
            ) + "\n"@);
        },
        None => {},
    }
}

/// The cells of the memory are shown one after the other: each value in base 10, and a mark for a
/// cell without one.
pub proof fn law_cells_are_shown_one_after_the_other(
    a: Seq<Option<Felt252>>,
    b: Seq<Option<Felt252>>,
    value: Felt252,
)
    ensures
        cells_log(a + b) == cells_log(a) + cells_log(b),
        cells_log(Seq::empty()) == Seq::<char>::empty(),
        cells_log(seq![None]) == "_, "@,
        cells_log(seq![Some(value)]) == decimal(value.value()) + ", "@,
    decreases b.len(),
{
    let none = seq![None::<Felt252>];
    let some = seq![Some(value)];
    assert(none.drop_last() =~= Seq::empty());
    assert(some.drop_last() =~= Seq::empty());
    assert(cells_log(Seq::empty()) =~= Seq::<char>::empty());
    assert(cells_log(none) =~= "_, "@);
    assert(cells_log(some) =~= decimal(value.value()) + ", "@);
    if b.len() == 0 {
        assert(a + b =~= a);
        assert(cells_log(a) + cells_log(b) =~= cells_log(a));
    } else {
        law_cells_are_shown_one_after_the_other(a, b.drop_last(), value);
        assert((a + b).drop_last() =~= a + b.drop_last());
        assert(cells_log(a + b) =~= cells_log(a) + cells_log(b));
    }
}

/// What an error tells a user, and what it keeps of the error behind it.
pub proof fn law_errors_tell_what_went_wrong(text: Seq<char>)
    ensures
        (ErrorView::FailedToCompile { message: text }).message() == text,
        (ErrorView::Outside { message: text }).message() == text,
        ErrorView::NoSierraProgram.message() == "Compilation failed without any diagnostics."@,
        ErrorView::GasCounterRequired.message()
            == "Program requires gas counter, please provide `--available-gas` argument."@,
        (ErrorView::CasmCompilationFailed { reason: text }).message()
            == "Sierra to CASM compilation failed: "@ + text,
        (ErrorView::SierraSerializationFailed { reason: text }).message()
            == "Sierra serialization failed."@,
        (ErrorView::CasmSerializationFailed { reason: text }).message()
            == "CASM serialization failed."@,
        (ErrorView::SerializationFailed { reason: text }).message() == "Serialization failed."@,
        (ErrorView::SierraSerializationFailed { reason: text }).cause() == Some(text),
        (ErrorView::CasmSerializationFailed { reason: text }).cause() == Some(text),
        (ErrorView::SerializationFailed { reason: text }).cause() == Some(text),
        (ErrorView::FailedToCompile { message: text }).cause() is None,
        (ErrorView::Outside { message: text }).cause() is None,
        (ErrorView::CasmCompilationFailed { reason: text }).cause() is None,
        ErrorView::NoSierraProgram.cause() is None,
        ErrorView::GasCounterRequired.cause() is None,
{
}

/// Diagnostics are shown as they are, on lines of their own.
pub proof fn law_diagnostics_are_shown(diagnostics: Seq<char>)
    ensures
        diagnostics_error(diagnostics).message() == "failed to compile:\n "@ + diagnostics,
        diagnostics_error(diagnostics).cause() is None,
{
}

/// What is told of a test run counts the tests that passed, failed and were ignored, in this order.
/// Where there is nothing to count, all tests passed. An error is handed on as it is.
pub proof fn law_tests_are_counted(summary: TestsSummary, error: ErrorView)
    ensures
        formatted(Ok(Some(summary))) == Ok::<Seq<char>, ErrorView>(
            "test result: passed: "@ + decimal(summary.passed@.len()) + ", failed: "@ + decimal(
                summary.failed@.len(),
            ) + ", ignored: "@ + decimal(summary.ignored@.len()),
        ),
        formatted(Ok(None)) == Ok::<Seq<char>, ErrorView>("All tests passed."@),
        formatted(Err(error)) == Err::<Seq<char>, ErrorView>(error),
        outcome_text(None) == "All tests passed."@,
{
}

/// The library functions that move gas are those that withdraw it, with or without other costs, and
/// the one that gives it back.
pub proof fn law_three_functions_move_gas(names: Seq<Seq<char>>)
    ensures
        some_moves_gas(names) <==> names.contains("withdraw_gas"@) || names.contains(
            "withdraw_gas_all"@,
        ) || names.contains("redeposit_gas"@),
{
    if some_moves_gas(names) {
        let i = choose|i: int| 0 <= i < names.len() && moves_gas(#[trigger] names[i]);
        assert(names.contains(names[i]));
    }
    if names.contains("withdraw_gas"@) {
        let i = choose|i: int| 0 <= i < names.len() && names[i] == "withdraw_gas"@;
        assert(moves_gas(names[i]));
    }
    if names.contains("withdraw_gas_all"@) {
        let i = choose|i: int| 0 <= i < names.len() && names[i] == "withdraw_gas_all"@;
        assert(moves_gas(names[i]));
    }
    if names.contains("redeposit_gas"@) {
        let i = choose|i: int| 0 <= i < names.len() && names[i] == "redeposit_gas"@;
        assert(moves_gas(names[i]));
    }
}

} // verus!
