//! What a registry shows once it has recorded the emissions of a run of
//! calls: the value of each counter series and the number of observations
//! of each histogram series.
//!
//! The registry itself is not part of this library. It is described here
//! only as far as the emissions determine it: every emission adds one to
//! the counter series of its counter labels, and one observation to the
//! histogram series of its histogram labels.

use crate::constants::{CALLER_KEY, ERROR_KEY, FUNCTION_KEY, MODULE_KEY, OK_KEY, RESULT_KEY};
use crate::labels::{call_series, counter_series, LabelModel, OutcomeModel};
use crate::tracker::{emitted, Emission};
use vstd::prelude::*;

verus! {

/// One completed call: the function, its module, the caller it recorded
/// and the classification of what it returned.
pub struct Call {
    pub function: Seq<char>,
    pub module: Seq<char>,
    pub caller: Seq<char>,
    pub result: Option<OutcomeModel>,
}

impl Call {
    /// The counter series that the call is counted under.
    pub open spec fn series(self) -> Seq<LabelModel> {
        counter_series(self.function, self.module, self.caller, self.result)
    }
}

/// `log` holds what the calls of `calls` emitted, one emission for each
/// call, in order.
pub open spec fn emissions_of(calls: Seq<Call>, log: Seq<Emission>) -> bool {
    &&& log.len() == calls.len()
    &&& forall|i: int|
        0 <= i < calls.len() ==> emitted(
            calls[i].function,
            calls[i].module,
            calls[i].caller,
            calls[i].result,
            #[trigger] log[i],
        )
}

/// The value of the counter series `series` after `log`.
pub open spec fn counter_value(log: Seq<Emission>, series: Seq<LabelModel>) -> nat
    decreases log.len(),
{
    if log.len() == 0 {
        0
    } else if log.last().counter_labels.deep_view() == series {
        counter_value(log.drop_last(), series) + 1
    } else {
        counter_value(log.drop_last(), series)
    }
}

/// The number of observations in the histogram series `series` after `log`.
pub open spec fn histogram_count(log: Seq<Emission>, series: Seq<LabelModel>) -> nat
    decreases log.len(),
{
    if log.len() == 0 {
        0
    } else if log.last().histogram_labels.deep_view() == series {
        histogram_count(log.drop_last(), series) + 1
    } else {
        histogram_count(log.drop_last(), series)
    }
}

/// How many of `calls` satisfy `counted`.
pub open spec fn number_of(calls: Seq<Call>, counted: spec_fn(Call) -> bool) -> nat
    decreases calls.len(),
{
    if calls.len() == 0 {
        0
    } else if counted(calls.last()) {
        number_of(calls.drop_last(), counted) + 1
    } else {
        number_of(calls.drop_last(), counted)
    }
}

/// Every call is counted once, failed or not: a counter series shows the
/// number of calls that have its labels, and a histogram series as many
/// observations as there were calls of its function.
pub proof fn lemma_every_call_is_counted_once(
    calls: Seq<Call>,
    log: Seq<Emission>,
    series: Seq<LabelModel>,
)
    requires
        emissions_of(calls, log),
    ensures
        counter_value(log, series) == number_of(calls, |call: Call| call.series() == series),
        histogram_count(log, series) == number_of(
            calls,
            |call: Call| call_series(call.function, call.module) == series,
        ),
    decreases calls.len(),
{
    if calls.len() > 0 {
        assert(emissions_of(calls.drop_last(), log.drop_last())) by {
            assert forall|i: int| 0 <= i < calls.len() - 1 implies emitted(
                calls.drop_last()[i].function,
                calls.drop_last()[i].module,
                calls.drop_last()[i].caller,
                calls.drop_last()[i].result,
                #[trigger] log.drop_last()[i],
            ) by {
                assert(log.drop_last()[i] == log[i]);
            }
        }
        lemma_every_call_is_counted_once(calls.drop_last(), log.drop_last(), series);
    }
}

/// Two ways of counting that agree on every call of `calls` give the same
/// number.
proof fn lemma_number_of_agrees(
    calls: Seq<Call>,
    counted: spec_fn(Call) -> bool,
    other: spec_fn(Call) -> bool,
)
    requires
        forall|i: int| 0 <= i < calls.len() ==> counted(#[trigger] calls[i]) == other(calls[i]),
    ensures
        number_of(calls, counted) == number_of(calls, other),
    decreases calls.len(),
{
    if calls.len() > 0 {
        assert forall|i: int| 0 <= i < calls.len() - 1 implies counted(
            #[trigger] calls.drop_last()[i],
        ) == other(calls.drop_last()[i]) by {
            assert(calls.drop_last()[i] == calls[i]);
        }
        lemma_number_of_agrees(calls.drop_last(), counted, other);
    }
}

/// Counting what every call satisfies gives the number of calls, and
/// counting what none satisfies gives zero.
proof fn lemma_number_of_all_or_none(calls: Seq<Call>, counted: spec_fn(Call) -> bool)
    ensures
        (forall|i: int| 0 <= i < calls.len() ==> counted(#[trigger] calls[i])) ==> number_of(
            calls,
            counted,
        ) == calls.len(),
        (forall|i: int| 0 <= i < calls.len() ==> !counted(#[trigger] calls[i])) ==> number_of(
            calls,
            counted,
        ) == 0,
    decreases calls.len(),
{
    if calls.len() > 0 {
        lemma_number_of_all_or_none(calls.drop_last(), counted);
        assert forall|i: int| 0 <= i < calls.len() - 1 implies #[trigger] calls.drop_last()[i]
            == calls[i] by {}
    }
}

/// The label names of a counter series are five different strings, so no
/// label is taken for another: `result` is not the name of the function,
/// module or caller label, nor of a label that holds the name of a case.
pub proof fn lemma_label_names_differ()
    ensures
        FUNCTION_KEY@ != RESULT_KEY@,
        MODULE_KEY@ != RESULT_KEY@,
        CALLER_KEY@ != RESULT_KEY@,
        OK_KEY@ != RESULT_KEY@,
        ERROR_KEY@ != RESULT_KEY@,
        OK_KEY@ != ERROR_KEY@,
{
    reveal_strlit("function");
    reveal_strlit("module");
    reveal_strlit("caller");
    reveal_strlit("result");
    reveal_strlit("ok");
    reveal_strlit("error");
    assert(OK_KEY@.len() == 2 && ERROR_KEY@.len() == 5);
    assert(MODULE_KEY@[0] != RESULT_KEY@[0]);
    assert(CALLER_KEY@[0] != RESULT_KEY@[0]);
}

/// Calls of one function from one caller are counted apart by what they
/// returned: two classifications never share a counter series. So the
/// series of a classification shows the number of calls classified so, in
/// whatever order the calls were made.
pub proof fn lemma_outcomes_are_counted_apart(
    function: Seq<char>,
    module: Seq<char>,
    caller: Seq<char>,
    calls: Seq<Call>,
    log: Seq<Emission>,
    result: Option<OutcomeModel>,
)
    requires
        emissions_of(calls, log),
        forall|i: int|
            0 <= i < calls.len() ==> (#[trigger] calls[i]).function == function && calls[i].module
                == module && calls[i].caller == caller,
    ensures
        forall|other: Option<OutcomeModel>|
            other != result ==> #[trigger] counter_series(function, module, caller, other)
                != counter_series(function, module, caller, result),
        counter_value(log, counter_series(function, module, caller, result)) == number_of(
            calls,
            |call: Call| call.result == result,
        ),
{
    let series = counter_series(function, module, caller, result);
    assert forall|other: Option<OutcomeModel>| other != result implies #[trigger] counter_series(
        function,
        module,
        caller,
        other,
    ) != series by {
        lemma_series_tells_result(function, module, caller, other, result);
    }
    lemma_every_call_is_counted_once(calls, log, series);
    assert forall|i: int| 0 <= i < calls.len() implies ((#[trigger] calls[i]).series() == series) == (
    calls[i].result == result) by {
        lemma_series_tells_result(function, module, caller, calls[i].result, result);
    }
    lemma_number_of_agrees(
        calls,
        |call: Call| call.series() == series,
        |call: Call| call.result == result,
    );
}

/// The counter series of a call tells its classification: series of the
/// same function, module and caller are equal only where the
/// classifications are.
pub proof fn lemma_series_tells_result(
    function: Seq<char>,
    module: Seq<char>,
    caller: Seq<char>,
    first: Option<OutcomeModel>,
    second: Option<OutcomeModel>,
)
    ensures
        counter_series(function, module, caller, first) == counter_series(
            function,
            module,
            caller,
            second,
        ) <==> first == second,
{
    let a = counter_series(function, module, caller, first);
    let b = counter_series(function, module, caller, second);
    if a == b {
        if a.len() >= 4 {
            assert(a[3] == b[3]);
        }
        if a.len() >= 5 {
            assert(a[4] == b[4]);
        }
    }
}

/// N calls of a function from one caller, none of which failed, leave the
/// function's counter at N, in a single series: the one whose `result`
/// label says `ok` where the returned value is classified, and the one
/// without a `result` label where it is not. No other series is touched.
pub proof fn lemma_calls_without_failure(call: Call, calls: Seq<Call>, log: Seq<Emission>)
    requires
        emissions_of(calls, log),
        forall|i: int| 0 <= i < calls.len() ==> #[trigger] calls[i] == call,
        call.result matches Some(outcome) ==> outcome.0 == OK_KEY@,
    ensures
        counter_value(log, call.series()) == calls.len(),
        forall|other: Seq<LabelModel>|
            other != call.series() ==> #[trigger] counter_value(log, other) == 0,
        forall|j: int|
            0 <= j < call.series().len() && (#[trigger] call.series()[j]).0 == RESULT_KEY@
                ==> call.series()[j].1 == OK_KEY@,
        call.result is None ==> forall|j: int|
            0 <= j < call.series().len() ==> (#[trigger] call.series()[j]).0 != RESULT_KEY@,
        call.result is Some ==> call.series()[3] == (RESULT_KEY@, OK_KEY@),
{
    lemma_every_call_is_counted_once(calls, log, call.series());
    lemma_number_of_all_or_none(calls, |other_call: Call| other_call.series() == call.series());
    assert forall|other: Seq<LabelModel>| other != call.series() implies #[trigger] counter_value(
        log,
        other,
    ) == 0 by {
        lemma_every_call_is_counted_once(calls, log, other);
        lemma_number_of_all_or_none(calls, |other_call: Call| other_call.series() == other);
    }
    lemma_label_names_differ();
}

} // verus!
