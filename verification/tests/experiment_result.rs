use victors::context::Context;
use victors::experiment::Experiment;
use victors::experiment_result::ExperimentResult;
use victors::observation::Observation;

type Thunk<'a, T> = Box<dyn Fn() -> T + 'a>;
type Judge<'a, T> = Box<dyn Fn(&T, &T) -> bool + 'a>;
type Cleaner<'a, T> = Box<dyn Fn(&T) -> T + 'a>;

type Controlled<'a, R> = Experiment<
    'a,
    R,
    Thunk<'a, Result<R, String>>,
    Thunk<'a, bool>,
    Thunk<'a, ()>,
    Cleaner<'a, R>,
    Judge<'a, Observation<R>>,
    Judge<'a, R>,
    Judge<'a, String>,
>;

fn create_observation(name: &'static str, value: u8) -> Observation<u8> {
    return Observation::new(name.to_string(), "experiment".to_string(), value, None, 1);
}

#[test]
fn should_evaluate_observations() {
    let experiment: Controlled<u8> = Experiment::default();
    let a = create_observation("a", 1);
    let b = create_observation("b", 1);

    let result = ExperimentResult::new(&experiment, vec![a, b], 1);

    assert!(result.matched());
    assert!(!result.has_mismatches());
    assert!(result.mismatched().is_empty());
}

#[test]
fn should_have_no_mismatches_if_there_is_only_a_control_observation() {
    let experiment: Controlled<u8> = Experiment::default();

    let result = ExperimentResult::new(&experiment, vec![create_observation("control", 1)], 0);

    assert!(result.matched());
    assert!(!result.has_mismatches());
    assert!(!result.has_ignores());
    assert!(result.mismatched().is_empty());
    assert!(result.ignored().is_empty());
    assert_eq!("control", result.control().unwrap().name);
}

#[test]
fn should_evaluate_observations_using_experiments_compare_block() {
    let mut experiment: Controlled<u8> = Experiment::default();
    experiment.comparator(Box::new(|a, b| a % 2 == b % 2));
    let observations = vec![
        create_observation("control", 1),
        create_observation("odd", 3),
        create_observation("even", 4),
    ];

    let result = ExperimentResult::new(&experiment, observations, 0);

    assert!(!result.matched());
    let mismatched = result.mismatched();
    assert_eq!(1, mismatched.len());
    assert_eq!("even", mismatched[0].name);
}

#[test]
fn should_not_ignore_any_mismatches_when_nothings_ignored() {
    let experiment: Controlled<u8> = Experiment::default();
    let observations = vec![
        create_observation("control", 1),
        create_observation("two", 2),
        create_observation("three", 3),
    ];

    let result = ExperimentResult::new(&experiment, observations, 0);

    assert!(!result.matched());
    assert!(result.has_mismatches());
    assert!(!result.has_ignores());
    let mismatched = result.mismatched();
    assert_eq!(2, mismatched.len());
    assert_eq!(Some(2), mismatched[0].value);
    assert_eq!(Some(3), mismatched[1].value);
    assert!(result.ignored().is_empty());
}

#[test]
fn should_use_experiments_ignore_block_to_ignore_mismatched_observations() {
    let mut experiment: Controlled<u8> = Experiment::default();
    experiment.add_ignore(Box::new(|_control, _candidate| true));
    let observations = vec![create_observation("control", 1), create_observation("two", 2)];

    let result = ExperimentResult::new(&experiment, observations, 0);

    assert!(!result.matched());
    assert!(!result.has_mismatches());
    assert!(result.has_ignores());
    assert!(result.mismatched().is_empty());
    let ignored = result.ignored();
    assert_eq!(1, ignored.len());
    assert_eq!("two", ignored[0].name);
}

#[test]
fn should_partition_observations_into_mismatched_and_ignored_when_applicable() {
    let mut experiment: Controlled<u8> = Experiment::default();
    experiment.add_ignore(Box::new(|_control, candidate| candidate.value == Some(3)));
    let observations = vec![
        create_observation("two", 2),
        create_observation("same", 1),
        create_observation("control", 1),
        create_observation("three", 3),
        create_observation("four", 4),
    ];

    let result = ExperimentResult::new(&experiment, observations, 2);

    assert!(!result.matched());
    let mismatched: Vec<&str> = result.mismatched().iter().map(|o| o.name.as_str()).collect();
    assert_eq!(vec!["two", "four"], mismatched);
    let ignored: Vec<&str> = result.ignored().iter().map(|o| o.name.as_str()).collect();
    assert_eq!(vec!["three"], ignored);
    assert_eq!("control", result.control().unwrap().name);
}

#[test]
fn should_expose_experiment_name() {
    let experiment: Controlled<u8> = Experiment::new("renamed");

    let result = ExperimentResult::new(&experiment, vec![create_observation("control", 1)], 0);

    assert_eq!("renamed", result.experiment_name());
}

#[test]
fn should_expose_context_from_experiment() {
    let mut members = serde_json::Map::new();
    members.insert("message".to_string(), serde_json::Value::String("hello world".to_string()));
    let context = Context::from_value(serde_json::Value::Object(members)).unwrap();
    let mut experiment: Controlled<u8> =
        Experiment::new_with_context("experiment", context.clone());

    let result = ExperimentResult::new(&experiment, vec![create_observation("control", 1)], 0);
    experiment.add_context({
        let mut later = Context::new();
        later.insert("message".to_string(), serde_json::Value::Null);
        later
    });

    assert_eq!(&context, result.context());
    assert_eq!(
        Some(&serde_json::Value::String("hello world".to_string())),
        result.context().get("message")
    );
    assert_eq!(Some(&serde_json::Value::Null), experiment.context.get("message"));
}
