//! Metrics for every call of a monitored function: a counter of calls, a
//! histogram of durations and, where wanted, a gauge of calls in flight.
//!
//! - `labels` builds the label sets of the three series and classifies
//!   return values by their shape.
//! - `outcome` decides the outcome of a call from the shape of its value
//!   and from the predicates of the call site.
//! - `caller_context` holds the name of the call that is executing, which a
//!   nested call records as its caller.
//! - `exemplars` reads the trace and span that an observation belongs to.
//! - `tracker` takes one call from its entry to what it emits.
//! - `chain` and `registry` state what holds of chains of calls and of what
//!   a registry shows after them.
//!
//! The library stores no metrics. What a call emits is handed to the
//! caller, who records it in a registry.

pub mod caller_context;
pub mod chain;
pub mod constants;
pub mod exemplars;
pub mod labels;
pub mod outcome;
pub mod registry;
pub mod tracker;
