//! Label sets of the three metric kinds, and the classification of return
//! values into an outcome.

use crate::constants::{CALLER_KEY, ERROR_KEY, FUNCTION_KEY, MODULE_KEY, OK_KEY, RESULT_KEY};
use std::ops::Deref;
use vstd::prelude::*;

verus! {

/// One label: its name and its value.
pub type Label = (&'static str, &'static str);

/// The outcome of a call (`ok` or `error`) and, where the returned value
/// names its own case, that name.
pub type ResultAndReturnTypeLabels = (&'static str, Option<&'static str>);

/// A label as contracts see it: the characters of its name and of its value.
pub type LabelModel = (Seq<char>, Seq<char>);

/// An outcome as contracts see it.
pub type OutcomeModel = (Seq<char>, Option<Seq<char>>);

/// The labels of one increment of the call counter: `function`, `module`
/// and `caller`; then, where the call was classified, `result` with the
/// outcome; then, where the returned value named its case, a label keyed by
/// the outcome that holds that name.
pub open spec fn counter_series(
    function: Seq<char>,
    module: Seq<char>,
    caller: Seq<char>,
    result: Option<OutcomeModel>,
) -> Seq<LabelModel> {
    let base = seq![(FUNCTION_KEY@, function), (MODULE_KEY@, module), (CALLER_KEY@, caller)];
    match result {
        None => base,
        Some((outcome, None)) => base.push((RESULT_KEY@, outcome)),
        Some((outcome, Some(kind))) => base.push((RESULT_KEY@, outcome)).push((outcome, kind)),
    }
}

/// The labels of a duration observation and of the gauge of calls in
/// flight: `function` and `module`, whatever the call returned.
pub open spec fn call_series(function: Seq<char>, module: Seq<char>) -> Seq<LabelModel> {
    seq![(FUNCTION_KEY@, function), (MODULE_KEY@, module)]
}

/// What the counter of calls is labelled with.
pub struct CounterLabels {
    pub function: &'static str,
    pub module: &'static str,
    pub caller: &'static str,
    pub result: Option<ResultAndReturnTypeLabels>,
}

impl CounterLabels {
    /// The label sequence that `to_vec` builds.
    pub open spec fn series(&self) -> Seq<LabelModel> {
        counter_series(self.function@, self.module@, self.caller@, self.result.deep_view())
    }

    /// The labels in their fixed order: `function`, `module`, `caller`,
    /// then `result` and the label of the case where the call has them.
    pub fn to_vec(&self) -> (labels: Vec<Label>)
        ensures
            labels.deep_view() == self.series(),
    {
        let mut labels: Vec<Label> = Vec::new();
        labels.push((FUNCTION_KEY, self.function));
        labels.push((MODULE_KEY, self.module));
        labels.push((CALLER_KEY, self.caller));
        if let Some((result, return_value_type)) = self.result {
            labels.push((RESULT_KEY, result));
            if let Some(return_value_type) = return_value_type {
                labels.push((result, return_value_type));
            }
        }
        labels
    }
}

/// What the histogram of call durations is labelled with.
pub struct HistogramLabels {
    pub function: &'static str,
    pub module: &'static str,
}

impl HistogramLabels {
    /// The label sequence that `to_array` builds.
    pub open spec fn series(&self) -> Seq<LabelModel> {
        call_series(self.function@, self.module@)
    }

    /// The labels in their fixed order: `function`, then `module`.
    pub fn to_array(&self) -> (labels: [Label; 2])
        ensures
            labels.deep_view() == self.series(),
    {
        let labels = [(FUNCTION_KEY, self.function), (MODULE_KEY, self.module)];
        labels
    }
}

/// What the gauge of calls in flight is labelled with.
pub struct GaugeLabels {
    pub function: &'static str,
    pub module: &'static str,
}

impl GaugeLabels {
    /// The label sequence that `to_array` builds.
    pub open spec fn series(&self) -> Seq<LabelModel> {
        call_series(self.function@, self.module@)
    }

    /// The labels in their fixed order: `function`, then `module`.
    pub fn to_array(&self) -> (labels: [Label; 2])
        ensures
            labels.deep_view() == self.series(),
    {
        let labels = [(FUNCTION_KEY, self.function), (MODULE_KEY, self.module)];
        labels
    }
}

/// The outcome that the counter records for a success.
pub open spec fn ok_outcome() -> OutcomeModel {
    (OK_KEY@, None)
}

/// The outcome that the counter records for a failure.
pub open spec fn error_outcome() -> OutcomeModel {
    (ERROR_KEY@, None)
}

/// Marks a payload that names no case: one of the types of `GetStaticStr`.
pub struct NoCase;

/// Marks a payload that names its case: one of the types of
/// `GetStaticStrFromIntoStaticStr`, from whose references a static string
/// can be made.
pub struct Converts;

/// `labels` classifies, under `outcome`, a payload that names its case: the
/// case is a name that `payload` gives.
pub open spec fn names_case<'a, P: GetStaticStrFromIntoStaticStr<'a>>(
    labels: Option<ResultAndReturnTypeLabels>,
    outcome: Seq<char>,
    payload: &'a P,
) -> bool {
    labels matches Some((key, Some(name))) && key@ == outcome && payload.names(name)
}

/// Classification of values that have the shape of a fallible result.
///
/// Whatever implements this classifies as `ok` or as `error`, or not at all.
/// The two parameters say, for the payload of a success and for that of a
/// failure, whether it names its case. A result has one impl for each
/// pairing, told apart by what its payload types can do, so a call on a
/// result of given types finds the one that fits them.
pub trait GetLabelsFromResult<OkCase = NoCase, ErrorCase = NoCase> {
    fn __autometrics_get_labels(&self) -> (labels: Option<ResultAndReturnTypeLabels>)
        ensures
            labels matches Some(found) ==> found.0@ == OK_KEY@ || found.0@ == ERROR_KEY@,
    {
        None
    }
}

impl<T: GetStaticStr, E: GetStaticStr> GetLabelsFromResult<NoCase, NoCase> for Result<T, E> {
    /// `Ok` classifies as `ok` and `Err` as `error`. Neither payload names
    /// a case.
    fn __autometrics_get_labels(&self) -> (labels: Option<ResultAndReturnTypeLabels>)
        ensures
            self is Ok ==> labels.deep_view() == Some(ok_outcome()),
            self is Err ==> labels.deep_view() == Some(error_outcome()),
    {
        match self {
            Ok(ok) => Some((OK_KEY, ok.__autometrics_static_str())),
            Err(err) => Some((ERROR_KEY, err.__autometrics_static_str())),
        }
    }
}

impl<T: GetStaticStr, E> GetLabelsFromResult<NoCase, Converts> for Result<T, E> where
    for<'a> E: GetStaticStrFromIntoStaticStr<'a>,
{
    /// `Ok` classifies as `ok` without a case, and `Err` as `error` with
    /// the case that its payload names.
    fn __autometrics_get_labels(&self) -> (labels: Option<ResultAndReturnTypeLabels>)
        ensures
            self is Ok ==> labels.deep_view() == Some(ok_outcome()),
            self matches Err(err) ==> names_case(labels, ERROR_KEY@, err),
    {
        match self {
            Ok(ok) => Some((OK_KEY, ok.__autometrics_static_str())),
            Err(err) => Some((ERROR_KEY, err.__autometrics_static_str())),
        }
    }
}

impl<T, E: GetStaticStr> GetLabelsFromResult<Converts, NoCase> for Result<T, E> where
    for<'a> T: GetStaticStrFromIntoStaticStr<'a>,
{
    /// `Ok` classifies as `ok` with the case that its payload names, and
    /// `Err` as `error` without a case.
    fn __autometrics_get_labels(&self) -> (labels: Option<ResultAndReturnTypeLabels>)
        ensures
            self matches Ok(ok) ==> names_case(labels, OK_KEY@, ok),
            self is Err ==> labels.deep_view() == Some(error_outcome()),
    {
        match self {
            Ok(ok) => Some((OK_KEY, ok.__autometrics_static_str())),
            Err(err) => Some((ERROR_KEY, err.__autometrics_static_str())),
        }
    }
}

impl<T, E> GetLabelsFromResult<Converts, Converts> for Result<T, E> where
    for<'a> T: GetStaticStrFromIntoStaticStr<'a>,
    for<'a> E: GetStaticStrFromIntoStaticStr<'a>,
{
    /// `Ok` classifies as `ok` and `Err` as `error`, each with the case
    /// that its payload names.
    fn __autometrics_get_labels(&self) -> (labels: Option<ResultAndReturnTypeLabels>)
        ensures
            self matches Ok(ok) ==> names_case(labels, OK_KEY@, ok),
            self matches Err(err) ==> names_case(labels, ERROR_KEY@, err),
    {
        match self {
            Ok(ok) => Some((OK_KEY, ok.__autometrics_static_str())),
            Err(err) => Some((ERROR_KEY, err.__autometrics_static_str())),
        }
    }
}

/// A counter label set of fixed size: three labels for a call that was not
/// classified, four with an outcome, five with an outcome and its case.
pub enum LabelArray {
    Three([Label; 3]),
    Four([Label; 4]),
    Five([Label; 5]),
}

impl LabelArray {
    /// The labels held, in order.
    pub open spec fn labels(&self) -> Seq<Label> {
        match self {
            LabelArray::Three(l) => l@,
            LabelArray::Four(l) => l@,
            LabelArray::Five(l) => l@,
        }
    }
}

impl Deref for LabelArray {
    type Target = [Label];

    fn deref(&self) -> (labels: &[Label])
        ensures
            labels@ == self.labels(),
    {
        match self {
            LabelArray::Three(l) => l,
            LabelArray::Four(l) => l,
            LabelArray::Five(l) => l,
        }
    }
}

/// Classification of values that carry no success or failure: references,
/// primitives and tuples. None of them is classified, so a call that
/// returns one is counted without a `result` label.
pub trait GetLabels {
    fn __autometrics_get_labels(&self) -> (labels: Option<ResultAndReturnTypeLabels>)
        ensures
            labels is None,
    {
        None
    }
}

impl<T> GetLabels for &T {}

impl GetLabels for i8 {}

impl GetLabels for i16 {}

impl GetLabels for i32 {}

impl GetLabels for i64 {}

impl GetLabels for i128 {}

impl GetLabels for isize {}

impl GetLabels for u8 {}

impl GetLabels for u16 {}

impl GetLabels for u32 {}

impl GetLabels for u64 {}

impl GetLabels for u128 {}

impl GetLabels for usize {}

impl GetLabels for char {}

impl GetLabels for bool {}

impl GetLabels for str {}

impl GetLabels for () {}

impl<A> GetLabels for (A,) {}

impl<A, B> GetLabels for (A, B) {}

impl<A, B, C> GetLabels for (A, B, C) {}

impl<A, B, C, D> GetLabels for (A, B, C, D) {}

impl<A, B, C, D, E> GetLabels for (A, B, C, D, E) {}

impl<A, B, C, D, E, F> GetLabels for (A, B, C, D, E, F) {}

impl<A, B, C, D, E, F, G> GetLabels for (A, B, C, D, E, F, G) {}

impl<A, B, C, D, E, F, G, H> GetLabels for (A, B, C, D, E, F, G, H) {}

impl<A, B, C, D, E, F, G, H, I> GetLabels for (A, B, C, D, E, F, G, H, I) {}

impl<A, B, C, D, E, F, G, H, I, J> GetLabels for (A, B, C, D, E, F, G, H, I, J) {}

impl<A, B, C, D, E, F, G, H, I, J, K> GetLabels for (A, B, C, D, E, F, G, H, I, J, K) {}

impl<A, B, C, D, E, F, G, H, I, J, K, L> GetLabels for (A, B, C, D, E, F, G, H, I, J, K, L) {}

/// The name of its own case that a payload gives where a static string can
/// be made from a reference to it.
pub trait GetStaticStrFromIntoStaticStr<'a> {
    /// `name` is a name that the payload gives to its case.
    spec fn names(&'a self, name: &'static str) -> bool;

    fn __autometrics_static_str(&'a self) -> (name: Option<&'static str>)
        ensures
            name matches Some(found) && self.names(found),
    ;
}

impl<'a, T: 'a> GetStaticStrFromIntoStaticStr<'a> for T where &'static str: From<&'a T> {
    /// The names of a payload are the values that its conversion gives.
    open spec fn names(&'a self, name: &'static str) -> bool {
        call_ensures(<&'static str as From<&'a T>>::from, (self,), name)
    }

    /// The name is what the conversion gives.
    fn __autometrics_static_str(&'a self) -> (name: Option<&'static str>)
        ensures
            <&'static str as vstd::std_specs::convert::FromSpec<&'a T>>::obeys_from_spec() ==> name
                == Some(<&'static str as vstd::std_specs::convert::FromSpec<&'a T>>::from_spec(self)),
    {
        Some(self.into())
    }
}

/// Payloads that name no case: references, primitives and tuples.
pub trait GetStaticStr {
    fn __autometrics_static_str(&self) -> (name: Option<&'static str>)
        ensures
            name is None,
    {
        None
    }
}

impl<T> GetStaticStr for &T {}

impl GetStaticStr for i8 {}

impl GetStaticStr for i16 {}

impl GetStaticStr for i32 {}

impl GetStaticStr for i64 {}

impl GetStaticStr for i128 {}

impl GetStaticStr for isize {}

impl GetStaticStr for u8 {}

impl GetStaticStr for u16 {}

impl GetStaticStr for u32 {}

impl GetStaticStr for u64 {}

impl GetStaticStr for u128 {}

impl GetStaticStr for usize {}

impl GetStaticStr for char {}

impl GetStaticStr for bool {}

impl GetStaticStr for str {}

impl GetStaticStr for () {}

impl<A> GetStaticStr for (A,) {}

impl<A, B> GetStaticStr for (A, B) {}

impl<A, B, C> GetStaticStr for (A, B, C) {}

impl<A, B, C, D> GetStaticStr for (A, B, C, D) {}

impl<A, B, C, D, E> GetStaticStr for (A, B, C, D, E) {}

impl<A, B, C, D, E, F> GetStaticStr for (A, B, C, D, E, F) {}

impl<A, B, C, D, E, F, G> GetStaticStr for (A, B, C, D, E, F, G) {}

impl<A, B, C, D, E, F, G, H> GetStaticStr for (A, B, C, D, E, F, G, H) {}

impl<A, B, C, D, E, F, G, H, I> GetStaticStr for (A, B, C, D, E, F, G, H, I) {}

impl<A, B, C, D, E, F, G, H, I, J> GetStaticStr for (A, B, C, D, E, F, G, H, I, J) {}

impl<A, B, C, D, E, F, G, H, I, J, K> GetStaticStr for (A, B, C, D, E, F, G, H, I, J, K) {}

impl<A, B, C, D, E, F, G, H, I, J, K, L> GetStaticStr for (A, B, C, D, E, F, G, H, I, J, K, L) {}

} // verus!
