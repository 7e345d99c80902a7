//! The outcome that a call is counted under.
//!
//! A value classifies by its shape: a fallible result as `ok` or `error`,
//! with the case that the payload of its branch names where it names one,
//! and anything else not at all. A call site may supply predicates of its own,
//! `ok_if` and `error_if`, and where it does the shape no longer counts:
//! the predicates alone decide. Where both are supplied, `error_if` is
//! asked first: the call is an error where `error_if` holds, and otherwise
//! what `ok_if` says.

use crate::constants::{ERROR_KEY, OK_KEY};
use crate::labels::{
    error_outcome, names_case, ok_outcome, GetLabels, GetLabelsFromResult, GetStaticStr, NoCase,
    OutcomeModel, ResultAndReturnTypeLabels,
};
use vstd::prelude::*;

verus! {

/// The outcome for a verdict of success or failure.
pub open spec fn outcome_of(success: bool) -> OutcomeModel {
    if success {
        ok_outcome()
    } else {
        error_outcome()
    }
}

/// The classification of a call: `by_shape` is what the shape of the
/// returned value gives, `ok_if` and `error_if` are what the call site's
/// predicates said of the value, where it has such predicates. Without
/// predicates the shape decides. With any, the call is a failure where
/// `error_if` holds or `ok_if` does not, and a success otherwise.
pub open spec fn classification(
    by_shape: Option<OutcomeModel>,
    ok_if: Option<bool>,
    error_if: Option<bool>,
) -> Option<OutcomeModel> {
    if ok_if is None && error_if is None {
        by_shape
    } else {
        Some(outcome_of(!(error_if == Some(true) || ok_if == Some(false))))
    }
}

/// The labels of a success or of a failure that names no case.
pub fn labels_of(success: bool) -> (labels: ResultAndReturnTypeLabels)
    ensures
        labels.deep_view() == outcome_of(success),
{
    if success {
        (OK_KEY, None)
    } else {
        (ERROR_KEY, None)
    }
}

/// Classifies a call from what the shape of its value gave and from the
/// verdicts of the call site's predicates.
pub fn classify(
    by_shape: Option<ResultAndReturnTypeLabels>,
    ok_if: Option<bool>,
    error_if: Option<bool>,
) -> (labels: Option<ResultAndReturnTypeLabels>)
    ensures
        labels.deep_view() == classification(by_shape.deep_view(), ok_if, error_if),
{
    match (error_if, ok_if) {
        (Some(true), _) => Some(labels_of(false)),
        (_, Some(success)) => Some(labels_of(success)),
        (Some(false), None) => Some(labels_of(true)),
        (None, None) => by_shape,
    }
}

/// Classifies `value` by a predicate that tells when it is a success.
pub fn ok_if<T, P: Fn(&T) -> bool>(value: &T, predicate: P) -> (labels: ResultAndReturnTypeLabels)
    requires
        call_requires(predicate, (value,)),
    ensures
        exists|success: bool| #[trigger]
            call_ensures(predicate, (value,), success) && Some(labels.deep_view())
                == classification(None, Some(success), None),
{
    let success = predicate(value);
    labels_of(success)
}

/// Classifies `value` by a predicate that tells when it is a failure.
pub fn error_if<T, P: Fn(&T) -> bool>(value: &T, predicate: P) -> (labels:
    ResultAndReturnTypeLabels)
    requires
        call_requires(predicate, (value,)),
    ensures
        exists|failure: bool| #[trigger]
            call_ensures(predicate, (value,), failure) && Some(labels.deep_view())
                == classification(None, None, Some(failure)),
{
    let failure = predicate(value);
    labels_of(!failure)
}

/// Where a call site supplies a predicate, the predicate decides and the
/// shape of the value does not: the call is classified whatever its shape,
/// and it is an error exactly where `error_if` holds or, with no `error_if`
/// that holds, where `ok_if` fails.
pub proof fn lemma_predicates_override_shape(
    by_shape: Option<OutcomeModel>,
    other_shape: Option<OutcomeModel>,
    ok_if: Option<bool>,
    error_if: Option<bool>,
)
    requires
        ok_if is Some || error_if is Some,
    ensures
        classification(by_shape, ok_if, error_if) == classification(other_shape, ok_if, error_if),
        classification(by_shape, ok_if, error_if) == Some(error_outcome()) || classification(
            by_shape,
            ok_if,
            error_if,
        ) == Some(ok_outcome()),
        classification(by_shape, ok_if, error_if) == Some(error_outcome()) <==> error_if == Some(
            true,
        ) || ok_if == Some(false),
{
    reveal_strlit("ok");
    reveal_strlit("error");
    assert(OK_KEY@.len() == 2 && ERROR_KEY@.len() == 5);
}

/// Without predicates the shape of the value decides alone.
pub proof fn lemma_shape_decides_without_predicates(by_shape: Option<OutcomeModel>)
    ensures
        classification(by_shape, None, None) == by_shape,
{
}

/// Classifying a call twice from the same shape and the same verdicts gives
/// the same outcome and the same case: nothing is kept between calls.
pub proof fn lemma_classify_is_stable(
    by_shape: Option<ResultAndReturnTypeLabels>,
    ok_if: Option<bool>,
    error_if: Option<bool>,
    first: Option<ResultAndReturnTypeLabels>,
    second: Option<ResultAndReturnTypeLabels>,
)
    requires
        call_ensures(classify, (by_shape, ok_if, error_if), first),
        call_ensures(classify, (by_shape, ok_if, error_if), second),
    ensures
        first.deep_view() == second.deep_view(),
{
}

/// Classifying the same fallible result twice by its shape gives the same
/// outcome, both times without a case, where neither payload names one.
pub proof fn lemma_result_shape_is_stable<T: GetStaticStr, E: GetStaticStr>(
    value: Result<T, E>,
    first: Option<ResultAndReturnTypeLabels>,
    second: Option<ResultAndReturnTypeLabels>,
)
    requires
        call_ensures(
            <Result<T, E> as GetLabelsFromResult<NoCase, NoCase>>::__autometrics_get_labels,
            (&value,),
            first,
        ),
        call_ensures(
            <Result<T, E> as GetLabelsFromResult<NoCase, NoCase>>::__autometrics_get_labels,
            (&value,),
            second,
        ),
    ensures
        first.deep_view() == second.deep_view(),
{
}

/// Classifying twice a payload that names its case gives the same outcome
/// and the same case, where the conversion gives one value for one payload.
/// So a fallible result classifies the same twice, whichever of its
/// payloads name their case.
pub proof fn lemma_named_case_is_stable<'a, P>(
    payload: &'a P,
    outcome: Seq<char>,
    first: Option<ResultAndReturnTypeLabels>,
    second: Option<ResultAndReturnTypeLabels>,
) where &'static str: From<&'a P>, P: 'a
    requires
        <&'static str as vstd::std_specs::convert::FromSpec<&'a P>>::obeys_from_spec(),
        names_case(first, outcome, payload),
        names_case(second, outcome, payload),
    ensures
        first.deep_view() == second.deep_view(),
        first.deep_view() == Some(
            (
                outcome,
                Some(
                    <&'static str as vstd::std_specs::convert::FromSpec<&'a P>>::from_spec(
                        payload,
                    )@,
                ),
            ),
        ),
{
}

/// Classifying twice a value of a shape that carries no success or failure
/// gives twice no classification.
pub proof fn lemma_other_shape_is_stable<T: GetLabels>(
    value: T,
    first: Option<ResultAndReturnTypeLabels>,
    second: Option<ResultAndReturnTypeLabels>,
)
    requires
        call_ensures(T::__autometrics_get_labels, (&value,), first),
        call_ensures(T::__autometrics_get_labels, (&value,), second),
    ensures
        first.deep_view() == second.deep_view(),
        first is None,
{
}

} // verus!
