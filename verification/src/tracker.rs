//! One monitored call, from its entry to the observations it emits.
//!
//! A `Tracker` exists from the entry of a call to its exit, and serves that
//! one call: `exit` consumes it. Entering touches no registry. Leaving
//! restores the caller context first, then builds the label sets and reads
//! the exemplar, and hands all of it back as an `Emission` for the registry
//! to record.

use crate::caller_context::{entered, left, CallerContext, RestoreToken};
use crate::exemplars::{get_exemplar, is_id, TraceLabels, SPAN_ID_KEY, TRACE_ID_KEY};
use crate::labels::{
    call_series, counter_series, CounterLabels, GaugeLabels, HistogramLabels, Label, LabelModel,
    OutcomeModel, ResultAndReturnTypeLabels,
};
use std::time::{Duration, Instant};
use vstd::prelude::*;

verus! {

/// `std::time::Instant`: a reading of the monotonic clock. Nothing is known
/// of what one holds.
#[verifier::external_type_specification]
#[verifier::external_body]
pub struct ExInstant(Instant);

/// `std::time::Instant::now`: the reading of the monotonic clock at the
/// moment of the call. The contract claims nothing of the reading.
#[verifier::external_body]
fn instant_now() -> (now: Instant) {
    Instant::now()
}

/// The time from the reading `earlier` to the reading `later`, zero where
/// `earlier` is the later one: what
/// `std::time::Instant::saturating_duration_since` gives for the two.
pub uninterp spec fn elapsed_between(later: Instant, earlier: Instant) -> Duration;

/// `std::time::Instant::saturating_duration_since`: the time from `earlier`
/// to `later`, zero where `earlier` is the later one. It depends on the two
/// readings alone, and the contract gives it its name.
#[verifier::external_body]
fn saturating_duration_since(later: &Instant, earlier: &Instant) -> (elapsed: Duration)
    ensures
        elapsed == elapsed_between(*later, *earlier),
{
    later.saturating_duration_since(*earlier)
}

/// A monitored call in progress.
pub struct Tracker {
    function: &'static str,
    module: &'static str,
    caller: &'static str,
    token: RestoreToken,
    start: Instant,
}

/// A monitored call in progress, as contracts see it.
pub struct TrackerModel {
    pub function: Seq<char>,
    pub module: Seq<char>,
    /// The name of the monitored call that was executing at entry, empty for
    /// the outermost call of a chain.
    pub caller: Seq<char>,
    /// When the call was entered.
    pub start: Instant,
}

/// What one completed call hands to the registry: one increment of the
/// counter and one observation of the histogram, with the exemplar to
/// attach to both, and the labels of the gauge to decrement where calls in
/// flight are counted.
pub struct Emission {
    pub counter_labels: Vec<Label>,
    pub histogram_labels: [Label; 2],
    pub gauge_labels: [Label; 2],
    /// The time from entry to exit.
    pub duration: Duration,
    pub exemplar: Option<TraceLabels>,
}

impl View for Tracker {
    type V = TrackerModel;

    closed spec fn view(&self) -> TrackerModel {
        TrackerModel {
            function: self.function@,
            module: self.module@,
            caller: self.caller@,
            start: self.start,
        }
    }
}

impl Tracker {
    #[verifier::type_invariant]
    spec fn well_formed(&self) -> bool {
        &&& self.function@.len() > 0
        &&& self.module@.len() > 0
        &&& self.token@ == self.caller@
    }

    /// Enters a call: the call's caller is what the context held, and the
    /// context now holds the call's own name. The clock is read last, so
    /// that the call's duration begins when the bookkeeping is done.
    pub fn enter(
        context: &mut CallerContext,
        function: &'static str,
        module: &'static str,
    ) -> (tracker: Tracker)
        requires
            function@.len() > 0,
            module@.len() > 0,
        ensures
            tracker@.function == function@,
            tracker@.module == module@,
            (final(context)@, tracker@.caller) == entered(old(context)@, function@),
    {
        let caller = context.current();
        let token = context.enter(function);
        let start = instant_now();
        Tracker { function, module, caller, token, start }
    }

    /// Enters a call if it has a name. A call whose function or module is
    /// the empty string is not entered, and the context stays as it is.
    pub fn try_enter(
        context: &mut CallerContext,
        function: &'static str,
        module: &'static str,
    ) -> (tracker: Option<Tracker>)
        ensures
            tracker is Some <==> function@.len() > 0 && module@.len() > 0,
            tracker matches Some(entry) ==> {
                &&& entry@.function == function@
                &&& entry@.module == module@
                &&& (final(context)@, entry@.caller) == entered(old(context)@, function@)
            },
            tracker is None ==> final(context)@ == old(context)@,
    {
        if function.is_empty() || module.is_empty() {
            None
        } else {
            Some(Tracker::enter(context, function, module))
        }
    }

    /// Enters a call that began at `start`.
    pub fn enter_at(
        context: &mut CallerContext,
        function: &'static str,
        module: &'static str,
        start: Instant,
    ) -> (tracker: Tracker)
        requires
            function@.len() > 0,
            module@.len() > 0,
        ensures
            tracker@.function == function@,
            tracker@.module == module@,
            tracker@.start == start,
            (final(context)@, tracker@.caller) == entered(old(context)@, function@),
    {
        let caller = context.current();
        let token = context.enter(function);
        Tracker { function, module, caller, token, start }
    }

    /// The name of the function, which is not empty.
    pub fn function(&self) -> (name: &'static str)
        ensures
            name@ == self@.function,
            name@.len() > 0,
    {
        proof {
            use_type_invariant(self);
        }
        self.function
    }

    /// The module of the function, which is not empty.
    pub fn module(&self) -> (name: &'static str)
        ensures
            name@ == self@.module,
            name@.len() > 0,
    {
        proof {
            use_type_invariant(self);
        }
        self.module
    }

    /// The name of the monitored call that was executing at entry, empty
    /// where there was none.
    pub fn caller(&self) -> (name: &'static str)
        ensures
            name@ == self@.caller,
    {
        self.caller
    }

    /// The labels of the gauge of calls in flight, to increment at entry.
    pub fn gauge_labels(&self) -> (labels: GaugeLabels)
        ensures
            labels.series() == call_series(self@.function, self@.module),
    {
        GaugeLabels { function: self.function, module: self.module }
    }

    /// Leaves the call at the present moment, with the exemplar of the span
    /// that is current. `result` is the classification of the returned value.
    /// The duration is the time from the call's start to a reading of the
    /// clock.
    pub fn exit(
        self,
        context: &mut CallerContext,
        result: Option<ResultAndReturnTypeLabels>,
    ) -> (emission: Emission)
        ensures
            final(context)@ == left(old(context)@, self@.caller),
            emitted(self@.function, self@.module, self@.caller, result.deep_view(), emission),
            exists|now: Instant| emission.duration == #[trigger] elapsed_between(now, self@.start),
            emission.exemplar matches Some(found) ==> is_id(found.trace_id@, 32) && is_id(
                found.span_id@,
                16,
            ),
    {
        let now = instant_now();
        let elapsed = saturating_duration_since(&now, &self.start);
        proof {
            use_type_invariant(&self);
            assert(elapsed == elapsed_between(now, self@.start));
        }
        let Tracker { function, module, caller, token, start: _ } = self;
        context.exit(token);
        let exemplar = get_exemplar();
        build_emission(function, module, caller, result, elapsed, exemplar)
    }

    /// Gives up a call that will not reach its exit: the caller context is
    /// restored as at an exit, and nothing is emitted. The labels are those of
    /// the gauge of calls in flight, to decrement where it was incremented at
    /// entry.
    pub fn cancel(self, context: &mut CallerContext) -> (labels: GaugeLabels)
        ensures
            final(context)@ == left(old(context)@, self@.caller),
            labels.series() == call_series(self@.function, self@.module),
    {
        proof {
            use_type_invariant(&self);
        }
        let Tracker { function, module, caller: _, token, start: _ } = self;
        context.exit(token);
        GaugeLabels { function, module }
    }

    /// Leaves a call that took `elapsed`, with the exemplar given.
    pub fn complete(
        self,
        context: &mut CallerContext,
        result: Option<ResultAndReturnTypeLabels>,
        elapsed: Duration,
        exemplar: Option<TraceLabels>,
    ) -> (emission: Emission)
        ensures
            final(context)@ == left(old(context)@, self@.caller),
            emitted(self@.function, self@.module, self@.caller, result.deep_view(), emission),
            emission.duration == elapsed,
            emission.exemplar.deep_view() == exemplar.deep_view(),
    {
        proof {
            use_type_invariant(&self);
        }
        let Tracker { function, module, caller, token, start: _ } = self;
        context.exit(token);
        build_emission(function, module, caller, result, elapsed, exemplar)
    }
}

/// The label sets of the emission of a call: the counter's carry the
/// caller and the classification, the histogram's and the gauge's only the
/// function and its module.
pub open spec fn emitted(
    function: Seq<char>,
    module: Seq<char>,
    caller: Seq<char>,
    result: Option<OutcomeModel>,
    emission: Emission,
) -> bool {
    &&& emission.counter_labels.deep_view() == counter_series(function, module, caller, result)
    &&& emission.histogram_labels.deep_view() == call_series(function, module)
    &&& emission.gauge_labels.deep_view() == call_series(function, module)
}

fn build_emission(
    function: &'static str,
    module: &'static str,
    caller: &'static str,
    result: Option<ResultAndReturnTypeLabels>,
    elapsed: Duration,
    exemplar: Option<TraceLabels>,
) -> (emission: Emission)
    ensures
        emission.counter_labels.deep_view() == counter_series(
            function@,
            module@,
            caller@,
            result.deep_view(),
        ),
        emission.histogram_labels.deep_view() == call_series(function@, module@),
        emission.gauge_labels.deep_view() == call_series(function@, module@),
        emission.duration == elapsed,
        emission.exemplar == exemplar,
{
    let counter_labels = CounterLabels { function, module, caller, result }.to_vec();
    let histogram_labels = HistogramLabels { function, module }.to_array();
    let gauge_labels = GaugeLabels { function, module }.to_array();
    Emission { counter_labels, histogram_labels, gauge_labels, duration: elapsed, exemplar }
}

/// The labels of a series with those of an exemplar merged in: the labels
/// of the series, then `trace_id` and `span_id` where there is an exemplar.
pub open spec fn with_exemplar(
    series: Seq<LabelModel>,
    exemplar: Option<(Seq<char>, Seq<char>)>,
) -> Seq<LabelModel> {
    match exemplar {
        Some((trace_id, span_id)) => series.push((TRACE_ID_KEY@, trace_id)).push(
            (SPAN_ID_KEY@, span_id),
        ),
        None => series,
    }
}

impl Emission {
    /// The labels of the counter increment, with the exemplar merged in.
    pub fn counter_observation(&self) -> (labels: Vec<(&'static str, String)>)
        ensures
            labels.deep_view() == with_exemplar(
                self.counter_labels.deep_view(),
                self.exemplar.deep_view(),
            ),
    {
        let series = self.counter_labels.as_slice();
        merge(series, &self.exemplar)
    }

    /// The labels of the duration observation, with the exemplar merged in.
    pub fn histogram_observation(&self) -> (labels: Vec<(&'static str, String)>)
        ensures
            labels.deep_view() == with_exemplar(
                self.histogram_labels.deep_view(),
                self.exemplar.deep_view(),
            ),
    {
        let series = self.histogram_labels.as_slice();
        merge(series, &self.exemplar)
    }
}

fn merge(series: &[Label], exemplar: &Option<TraceLabels>) -> (labels: Vec<(&'static str, String)>)
    ensures
        labels.deep_view() == with_exemplar(series.deep_view(), exemplar.deep_view()),
{
    let mut labels: Vec<(&'static str, String)> = Vec::new();
    let mut index: usize = 0;
    while index < series.len()
        invariant
            index <= series.len(),
            labels.len() == index,
            forall|i: int| 0 <= i < index ==> (#[trigger] labels[i]).deep_view() == series[i].deep_view(),
        decreases series.len() - index,
    {
        let (name, value) = series[index];
        labels.push((name, value.to_owned()));
        index += 1;
    }
    if let Some(trace) = exemplar {
        labels.push((TRACE_ID_KEY, trace.trace_id.clone()));
        labels.push((SPAN_ID_KEY, trace.span_id.clone()));
    }
    labels
}

} // verus!
