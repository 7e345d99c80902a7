use autometrics::labels::GetLabelsFromResult;
use autometrics::outcome::{classify, error_if, labels_of, ok_if};

enum Failure {
    NotFound,
    Timeout,
}

impl From<&Failure> for &'static str {
    fn from(failure: &Failure) -> &'static str {
        match failure {
            Failure::NotFound => "not_found",
            Failure::Timeout => "timeout",
        }
    }
}

#[test]
fn labels_of_success_and_failure() {
    assert_eq!(labels_of(true), ("ok", None));
    assert_eq!(labels_of(false), ("error", None));
}

#[test]
fn without_predicates_the_shape_decides() {
    assert_eq!(classify(None, None, None), None);
    assert_eq!(classify(Some(("ok", None)), None, None), Some(("ok", None)));
    assert_eq!(
        classify(Some(("error", Some("timeout"))), None, None),
        Some(("error", Some("timeout")))
    );
}

#[test]
fn ok_if_alone_decides() {
    assert_eq!(classify(None, Some(true), None), Some(("ok", None)));
    assert_eq!(classify(None, Some(false), None), Some(("error", None)));
    assert_eq!(classify(Some(("error", None)), Some(true), None), Some(("ok", None)));
    assert_eq!(classify(Some(("ok", Some("created"))), Some(false), None), Some(("error", None)));
}

#[test]
fn error_if_alone_decides() {
    assert_eq!(classify(None, None, Some(true)), Some(("error", None)));
    assert_eq!(classify(None, None, Some(false)), Some(("ok", None)));
    assert_eq!(classify(Some(("ok", None)), None, Some(true)), Some(("error", None)));
    assert_eq!(classify(Some(("error", Some("timeout"))), None, Some(false)), Some(("ok", None)));
}

#[test]
fn error_if_is_asked_before_ok_if() {
    assert_eq!(classify(None, Some(true), Some(true)), Some(("error", None)));
    assert_eq!(classify(None, Some(false), Some(true)), Some(("error", None)));
    assert_eq!(classify(None, Some(true), Some(false)), Some(("ok", None)));
    assert_eq!(classify(None, Some(false), Some(false)), Some(("error", None)));
    assert_eq!(classify(Some(("ok", None)), Some(true), Some(true)), Some(("error", None)));
}

#[test]
fn an_empty_option_is_an_error_where_the_predicate_says_so() {
    let empty: Option<u32> = None;
    let full: Option<u32> = Some(3);
    assert_eq!(ok_if(&empty, Option::is_some), ("error", None));
    assert_eq!(ok_if(&full, Option::is_some), ("ok", None));
    assert_eq!(error_if(&empty, Option::is_none), ("error", None));
    assert_eq!(error_if(&full, Option::is_none), ("ok", None));
}

#[test]
fn a_predicate_of_the_call_site_is_a_closure() {
    let limit = 10;
    assert_eq!(ok_if(&3, |value: &i32| *value < limit), ("ok", None));
    assert_eq!(ok_if(&30, |value: &i32| *value < limit), ("error", None));
    assert_eq!(error_if(&3, |value: &i32| *value < limit), ("error", None));
    assert_eq!(error_if(&30, |value: &i32| *value < limit), ("ok", None));
}

#[test]
fn classification_is_the_same_twice() {
    let value: Option<u32> = None;
    assert_eq!(ok_if(&value, Option::is_some), ok_if(&value, Option::is_some));
    assert_eq!(classify(None, Some(false), None), classify(None, Some(false), None));
}

#[test]
fn predicates_decide_over_a_result_that_names_its_case() {
    let late: Result<u32, Failure> = Err(Failure::Timeout);
    let missing: Result<u32, Failure> = Err(Failure::NotFound);
    let by_shape = late.__autometrics_get_labels();
    assert_eq!(by_shape, Some(("error", Some("timeout"))));
    assert_eq!(classify(by_shape, None, None), Some(("error", Some("timeout"))));
    assert_eq!(classify(by_shape, Some(true), None), Some(("ok", None)));
    assert_eq!(classify(missing.__autometrics_get_labels(), None, Some(false)), Some(("ok", None)));
}
