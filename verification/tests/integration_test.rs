use autometrics::caller_context::CallerContext;
use autometrics::constants::{
    CALLER_KEY, COUNTER_NAME, ERROR_KEY, FUNCTION_KEY, HISTOGRAM_NAME, MODULE_KEY, OK_KEY,
    RESULT_KEY,
};
use autometrics::labels::{
    CounterLabels, GetLabels, GetLabelsFromResult, Label, ResultAndReturnTypeLabels,
};
use autometrics::outcome::{classify, error_if as classify_error_if, ok_if as classify_ok_if};
use autometrics::tracker::{Emission, Tracker};
use prometheus::{HistogramOpts, HistogramVec, IntCounterVec, Opts, Registry, TextEncoder};
use std::collections::HashMap;

/// A registry in the Prometheus text format, fed with what the library emits.
struct Exporter {
    registry: Registry,
    counter: IntCounterVec,
    histogram: HistogramVec,
}

const COUNTER_LABEL_NAMES: [&str; 6] =
    [FUNCTION_KEY, MODULE_KEY, CALLER_KEY, RESULT_KEY, OK_KEY, ERROR_KEY];

fn init() -> Exporter {
    let mut service = HashMap::new();
    service.insert("service_name".to_string(), "autometrics".to_string());
    let registry = Registry::new_custom(None, Some(service)).unwrap();
    let counter =
        IntCounterVec::new(Opts::new(COUNTER_NAME, "calls"), &COUNTER_LABEL_NAMES).unwrap();
    let histogram = HistogramVec::new(
        HistogramOpts::new(HISTOGRAM_NAME, "durations"),
        &[FUNCTION_KEY, MODULE_KEY],
    )
    .unwrap();
    registry.register(Box::new(counter.clone())).unwrap();
    registry.register(Box::new(histogram.clone())).unwrap();
    Exporter { registry, counter, histogram }
}

fn value_of(labels: &[Label], name: &str) -> &'static str {
    labels.iter().find(|(key, _)| *key == name).map(|(_, value)| *value).unwrap_or("")
}

fn counter_values(labels: &[Label]) -> Vec<&'static str> {
    COUNTER_LABEL_NAMES.iter().map(|name| value_of(labels, name)).collect()
}

impl Exporter {
    fn record(&self, emission: &Emission) {
        self.counter.with_label_values(&counter_values(&emission.counter_labels)).inc();
        let [(_, function), (_, module)] = emission.histogram_labels;
        self.histogram
            .with_label_values(&[function, module])
            .observe(emission.duration.as_secs_f64());
    }

    fn register(&self, labels: &CounterLabels) {
        self.counter.with_label_values(&counter_values(&labels.to_vec()));
    }

    fn encode_to_string(&self) -> String {
        TextEncoder::new().encode_to_string(&self.registry.gather()).unwrap()
    }
}

/// Runs `body` as a monitored call of `function` and records what it emits.
fn monitored<T>(
    context: &mut CallerContext,
    exporter: &Exporter,
    function: &'static str,
    labels_of: impl FnOnce(&T) -> Option<ResultAndReturnTypeLabels>,
    body: impl FnOnce(&mut CallerContext) -> T,
) -> T {
    let tracker = Tracker::enter(context, function, "integration_test");
    let value = body(context);
    let labels = labels_of(&value);
    let emission = tracker.exit(context, labels);
    exporter.record(&emission);
    value
}

#[test]
fn single_function() {
    let exporter = init();
    let mut context = CallerContext::new();

    fn hello_world(context: &mut CallerContext, exporter: &Exporter) -> &'static str {
        monitored(
            context,
            exporter,
            "hello_world",
            |value: &&'static str| value.__autometrics_get_labels(),
            |_| "Hello world!",
        )
    }

    hello_world(&mut context, &exporter);
    hello_world(&mut context, &exporter);

    let metrics = exporter.encode_to_string();
    println!("{}", metrics);
    assert!(metrics.lines().any(|line| {
        (line.starts_with("function_calls_total{"))
            && line.contains(r#"function="hello_world""#)
            && line.contains(r#"module="integration_test""#)
            && line.contains(r#"service_name="autometrics""#)
            && line.ends_with("} 2")
    }));
    assert!(metrics.lines().any(|line| line
        .starts_with("function_calls_duration_seconds_bucket{")
        && line.contains(r#"function="hello_world""#)
        && line.contains(r#"module="integration_test""#)
        && line.contains(r#"service_name="autometrics""#)
        && line.ends_with("} 2")));
}

#[test]
fn impl_block() {
    let exporter = init();
    let mut context = CallerContext::new();

    struct Foo;

    impl Foo {
        fn test_fn(context: &mut CallerContext, exporter: &Exporter) -> &'static str {
            monitored(
                context,
                exporter,
                "Foo::test_fn",
                |value: &&'static str| value.__autometrics_get_labels(),
                |_| "Hello world!",
            )
        }

        fn test_method(&self, context: &mut CallerContext, exporter: &Exporter) -> &'static str {
            monitored(
                context,
                exporter,
                "Foo::test_method",
                |value: &&'static str| value.__autometrics_get_labels(),
                |_| "Goodnight moon",
            )
        }
    }

    Foo::test_fn(&mut context, &exporter);
    Foo.test_method(&mut context, &exporter);

    let metrics = exporter.encode_to_string();
    assert!(metrics.lines().any(|line| {
        line.starts_with("function_calls_total{")
            && line.contains(r#"function="Foo::test_fn""#)
            && line.ends_with("} 1")
    }));
    assert!(metrics.lines().any(|line| line
        .starts_with("function_calls_duration_seconds_bucket{")
        && line.contains(r#"function="Foo::test_fn""#)
        && line.ends_with("} 1")));

    assert!(metrics.lines().any(|line| {
        line.starts_with("function_calls_total{")
            && line.contains(r#"function="Foo::test_method""#)
            && line.ends_with("} 1")
    }));
    assert!(metrics.lines().any(|line| line
        .starts_with("function_calls_duration_seconds_bucket{")
        && line.contains(r#"function="Foo::test_method""#)
        && line.ends_with("} 1")));
}

#[test]
fn result() {
    let exporter = init();
    let mut context = CallerContext::new();

    fn result_fn(
        context: &mut CallerContext,
        exporter: &Exporter,
        should_error: bool,
    ) -> Result<(), ()> {
        monitored(
            context,
            exporter,
            "result_fn",
            |value: &Result<(), ()>| value.__autometrics_get_labels(),
            |_| {
                if should_error {
                    Err(())
                } else {
                    Ok(())
                }
            },
        )
    }

    result_fn(&mut context, &exporter, true).ok();
    result_fn(&mut context, &exporter, true).ok();
    result_fn(&mut context, &exporter, false).ok();

    let metrics = exporter.encode_to_string();
    assert!(metrics
        .lines()
        .any(|line| line.starts_with("function_calls_total{")
            && line.contains(r#"function="result_fn""#)
            && line.contains(r#"result="error""#)
            && line.ends_with("} 2")));
    assert!(metrics
        .lines()
        .any(|line| line.starts_with("function_calls_total{")
            && line.contains(r#"function="result_fn""#)
            && line.contains(r#"result="ok""#)
            && line.ends_with("} 1")));
}

#[test]
fn ok_if() {
    let exporter = init();
    let mut context = CallerContext::new();

    fn ok_if_fn(context: &mut CallerContext, exporter: &Exporter) -> Option<()> {
        monitored(
            context,
            exporter,
            "ok_if_fn",
            |value: &Option<()>| Some(classify_ok_if(value, Option::is_some)),
            |_| None,
        )
    }

    ok_if_fn(&mut context, &exporter);

    let metrics = exporter.encode_to_string();
    assert!(metrics.lines().any(|line| {
        line.starts_with("function_calls_total{")
            && line.contains(r#"function="ok_if_fn""#)
            && line.contains(r#"result="error""#)
            && line.ends_with("} 1")
    }));
}

#[test]
fn error_if() {
    let exporter = init();
    let mut context = CallerContext::new();

    fn error_if_fn(context: &mut CallerContext, exporter: &Exporter) -> Option<()> {
        monitored(
            context,
            exporter,
            "error_if_fn",
            |value: &Option<()>| Some(classify_error_if(value, Option::is_none)),
            |_| None,
        )
    }

    error_if_fn(&mut context, &exporter);

    let metrics = exporter.encode_to_string();
    assert!(metrics.lines().any(|line| {
        line.starts_with("function_calls_total{")
            && line.contains(r#"function="error_if_fn""#)
            && line.contains(r#"result="error""#)
            && line.ends_with("} 1")
    }));
}

#[test]
fn caller_label() {
    let exporter = init();
    let mut context = CallerContext::new();

    fn function_1(context: &mut CallerContext, exporter: &Exporter) {
        monitored(
            context,
            exporter,
            "function_1",
            |value: &()| value.__autometrics_get_labels(),
            |context| function_2(context, exporter),
        )
    }

    fn function_2(context: &mut CallerContext, exporter: &Exporter) {
        monitored(
            context,
            exporter,
            "function_2",
            |value: &()| value.__autometrics_get_labels(),
            |_| (),
        )
    }

    function_1(&mut context, &exporter);

    let metrics = exporter.encode_to_string();
    assert!(metrics.lines().any(|line| {
        line.starts_with("function_calls_total{")
            && line.contains(r#"caller="function_1""#)
            && line.contains(r#"function="function_2""#)
            && line.ends_with("} 1")
    }));
}

#[test]
fn caller_label_of_a_direct_call_is_empty() {
    let exporter = init();
    let mut context = CallerContext::new();

    monitored(
        &mut context,
        &exporter,
        "function_2",
        |value: &()| value.__autometrics_get_labels(),
        |_| (),
    );

    let metrics = exporter.encode_to_string();
    assert!(metrics.lines().any(|line| {
        line.starts_with("function_calls_total{")
            && line.contains(r#"caller="""#)
            && line.contains(r#"function="function_2""#)
            && line.ends_with("} 1")
    }));
    assert!(!metrics.lines().any(|line| line.contains(r#"caller="function_1""#)));
}

#[test]
fn zero_metrics() {
    let exporter = init();

    // The function is not called, but its counter is registered all the same
    exporter.register(&CounterLabels {
        function: "zero_metrics_fn",
        module: "integration_test",
        caller: "",
        result: None,
    });

    let metrics = exporter.encode_to_string();
    assert!(metrics
        .lines()
        .any(|line| line.contains(r#"function="zero_metrics_fn""#) && line.ends_with("} 0")));
}

#[test]
fn predicates_decide_before_the_shape_of_a_result() {
    let exporter = init();
    let mut context = CallerContext::new();

    let value: Result<u32, ()> = monitored(
        &mut context,
        &exporter,
        "empty_is_error",
        |value: &Result<u32, ()>| {
            classify(value.__autometrics_get_labels(), None, Some(*value == Ok(0)))
        },
        |_| Ok(0),
    );
    assert_eq!(value, Ok(0));

    let metrics = exporter.encode_to_string();
    assert!(metrics.lines().any(|line| {
        line.starts_with("function_calls_total{")
            && line.contains(r#"function="empty_is_error""#)
            && line.contains(r#"result="error""#)
            && line.ends_with("} 1")
    }));
    assert!(!metrics.lines().any(|line| line.contains(r#"result="ok""#)));
}

#[test]
fn the_case_of_a_failure_is_recorded_under_its_outcome() {
    let exporter = init();
    let mut context = CallerContext::new();

    enum Failure {
        NotFound,
        Timeout,
    }

    impl From<&Failure> for &'static str {
        fn from(failure: &Failure) -> &'static str {
            match failure {
                Failure::NotFound => "not_found",
                Failure::Timeout => "timeout",
            }
        }
    }

    for failure in [Some(Failure::Timeout), None, Some(Failure::NotFound), Some(Failure::Timeout)] {
        let _ = monitored(
            &mut context,
            &exporter,
            "load",
            |value: &Result<u32, Failure>| value.__autometrics_get_labels(),
            |_| match failure {
                Some(failure) => Err(failure),
                None => Ok(1),
            },
        );
    }

    let metrics = exporter.encode_to_string();
    let counted = |case: &str, total: &str| {
        metrics.lines().any(|line| {
            line.starts_with("function_calls_total{")
                && line.contains(r#"function="load""#)
                && line.contains(case)
                && line.ends_with(total)
        })
    };
    assert!(counted(r#"error="timeout",function="load",module="integration_test",ok="",result="error""#, "} 2"));
    assert!(counted(r#"error="not_found",function="load",module="integration_test",ok="",result="error""#, "} 1"));
    assert!(counted(r#"error="",function="load",module="integration_test",ok="",result="ok""#, "} 1"));
}
