//! Names of the metric series and of the labels attached to them.

use vstd::prelude::*;

verus! {

/// Name of the counter of calls.
pub const COUNTER_NAME: &'static str = "function_calls_total";

/// Name of the histogram of call durations, in seconds.
pub const HISTOGRAM_NAME: &'static str = "function_calls_duration_seconds";

/// Name of the gauge of calls in flight.
pub const GAUGE_NAME: &'static str = "function_calls_concurrent";

/// Label that holds the name of the function.
pub const FUNCTION_KEY: &'static str = "function";

/// Label that holds the module of the function.
pub const MODULE_KEY: &'static str = "module";

/// Label that holds the name of the monitored call that made the call,
/// empty where there was none.
pub const CALLER_KEY: &'static str = "caller";

/// Label that holds the outcome of the call, `ok` or `error`.
pub const RESULT_KEY: &'static str = "result";

/// The outcome of a success, and the label that holds the case of one.
pub const OK_KEY: &'static str = "ok";

/// The outcome of a failure, and the label that holds the case of one.
pub const ERROR_KEY: &'static str = "error";

} // verus!
