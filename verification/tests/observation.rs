use victors::observation::Observation;

type Judge<'a, T> = Box<dyn Fn(&T, &T) -> bool + 'a>;

fn observed(name: &str, value: &'static str) -> Observation<&'static str> {
    Observation::new(name.to_string(), "experiment".to_string(), value, None, 1)
}

fn failed(name: &str, _value: &'static str, error: &str) -> Observation<&'static str> {
    Observation::failed(name.to_string(), "experiment".to_string(), error.to_string(), 1)
}

fn no_judge<'a, T>() -> Option<&'a Judge<'a, T>> {
    None
}

#[test]
fn new_observation_holds_what_it_was_given() {
    let observation = Observation::new(
        "candidate".to_string(),
        "checkout".to_string(),
        7u8,
        Some(8u8),
        250,
    );

    assert_eq!("candidate", observation.name);
    assert_eq!("checkout", observation.experiment_name);
    assert_eq!(Some(7), observation.value);
    assert_eq!(Some(8), observation.cleaned_value);
    assert_eq!(None, observation.error);
    assert_eq!(250, observation.duration);
}

#[test]
fn clean_value_is_the_cleaned_value() {
    let cleaned = Observation::new("a".to_string(), "e".to_string(), 7u8, Some(8u8), 1);
    let raw = Observation::new("a".to_string(), "e".to_string(), 7u8, None, 1);

    assert_eq!(Some(&8), cleaned.clean_value());
    assert_eq!(None, raw.clean_value());
}

#[test]
fn values_are_compared_with_equality_by_default() {
    let control = observed("control", "x");

    assert!(control.equivalent_to(&observed("same", "x"), no_judge(), no_judge()));
    assert!(!control.equivalent_to(&observed("upper", "X"), no_judge(), no_judge()));
}

#[test]
fn comparator_decides_in_place_of_equality() {
    let ignoring_case: Judge<&'static str> = Box::new(|a, b| a.eq_ignore_ascii_case(b));
    let control = observed("control", "x");

    assert!(control.equivalent_to(&observed("upper", "X"), Some(&ignoring_case), no_judge()));
    assert!(!control.equivalent_to(&observed("other", "y"), Some(&ignoring_case), no_judge()));
}

#[test]
fn two_failures_are_compared_by_their_errors() {
    let control = failed("control", "x", "timeout");

    assert!(control.equivalent_to(&failed("same", "y", "timeout"), no_judge(), no_judge()));
    assert!(!control.equivalent_to(&failed("other", "x", "refused"), no_judge(), no_judge()));
}

#[test]
fn error_comparator_decides_on_two_failures() {
    let by_length: Judge<String> = Box::new(|a, b| a.len() == b.len());
    let never: Judge<&'static str> = Box::new(|_a, _b| false);
    let control = failed("control", "x", "timeout");

    assert!(control.equivalent_to(&failed("a", "x", "refused"), Some(&never), Some(&by_length)));
    assert!(!control.equivalent_to(&failed("b", "x", "late"), Some(&never), Some(&by_length)));
}

#[test]
fn a_failure_is_never_equivalent_to_a_value() {
    let always_values: Judge<&'static str> = Box::new(|_a, _b| true);
    let always_errors: Judge<String> = Box::new(|_a, _b| true);
    let control = observed("control", "x");
    let broken = failed("candidate", "x", "timeout");

    assert!(!control.equivalent_to(&broken, Some(&always_values), Some(&always_errors)));
    assert!(!broken.equivalent_to(&control, Some(&always_values), Some(&always_errors)));
    assert!(!control.equivalent_to(&broken, no_judge(), no_judge()));
}

#[test]
fn a_clone_is_equal_to_the_observation() {
    let mut observation =
        Observation::new("a".to_string(), "e".to_string(), vec![1u8, 2], Some(vec![1u8]), 9);
    observation.error = Some("late".to_string());

    let copy = observation.clone();

    assert!(copy == observation);
    assert_eq!(Some(vec![1u8, 2]), copy.value);
    assert_eq!(Some(vec![1u8]), copy.cleaned_value);
    assert_eq!(Some("late".to_string()), copy.error);
    assert_eq!(9, copy.duration);
}

#[test]
fn failed_observation_holds_the_error_and_no_value() {
    let observation: Observation<u8> =
        Observation::failed("candidate".to_string(), "checkout".to_string(), "late".to_string(), 3);

    assert_eq!("candidate", observation.name);
    assert_eq!("checkout", observation.experiment_name);
    assert_eq!(None, observation.value);
    assert_eq!(None, observation.cleaned_value);
    assert_eq!(None, observation.clean_value());
    assert_eq!(Some("late".to_string()), observation.error);
    assert_eq!(3, observation.duration);
}

#[test]
fn observations_without_value_or_error_are_told_from_values_only() {
    let always: Judge<&'static str> = Box::new(|_a, _b| true);
    let mut empty = observed("empty", "x");
    empty.value = None;
    let mut other = observed("other", "y");
    other.value = None;

    assert!(empty.equivalent_to(&other, no_judge(), no_judge()));
    assert!(!empty.equivalent_to(&observed("full", "x"), Some(&always), no_judge()));
    assert!(!observed("full", "x").equivalent_to(&empty, Some(&always), no_judge()));
}
