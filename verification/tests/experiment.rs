use std::cell::RefCell;
use std::collections::HashSet;

use victors::context::Context;
use victors::errors::{BehaviorMissing, BehaviorNotUnique, VictorsErrors};
use victors::experiment::{Experiment, UncontrolledExperiment};
use victors::experiment_result::ExperimentResult;
use victors::observation::Observation;
use victors::result_publisher::{InMemoryPublisher, Publisher};
use victors::victor::{Scientist, Victor};

type Thunk<'a, T> = Box<dyn Fn() -> T + 'a>;
type Judge<'a, T> = Box<dyn Fn(&T, &T) -> bool + 'a>;
type Cleaner<'a, T> = Box<dyn Fn(&T) -> T + 'a>;

type Controlled<'a, R> = Experiment<
    'a,
    R,
    Thunk<'a, Result<R, String>>,
    Thunk<'a, bool>,
    Thunk<'a, ()>,
    Cleaner<'a, R>,
    Judge<'a, Observation<R>>,
    Judge<'a, R>,
    Judge<'a, String>,
>;

type Uncontrolled<'a, R> = UncontrolledExperiment<
    'a,
    R,
    Thunk<'a, Result<R, String>>,
    Thunk<'a, bool>,
    Thunk<'a, ()>,
    Cleaner<'a, R>,
    Judge<'a, Observation<R>>,
    Judge<'a, R>,
    Judge<'a, String>,
>;

fn ok<'a, R: 'a, F: Fn() -> R + 'a>(behavior: F) -> Thunk<'a, Result<R, String>> {
    Box::new(move || Ok(behavior()))
}

fn create_observation(name: &'static str) -> Observation<u8> {
    Observation::new(name.to_string(), "experiment".to_string(), 1, None, 1)
}

fn hello_world() -> Context {
    let mut members = serde_json::Map::new();
    members.insert(
        "message".to_string(),
        serde_json::Value::String("hello world".to_string()),
    );
    Context::from_value(serde_json::Value::Object(members)).unwrap()
}

#[test]
fn try_new_dr() {
    pub struct PrintPublisher;
    impl<R: Clone + PartialEq> Publisher<R> for PrintPublisher {
        fn publish(&self, result: &ExperimentResult<R>) {
            println!("{} matched: {}", result.experiment_name(), result.matched());
        }
    }

    struct Reed;
    impl<'a, R: Clone + PartialEq> Scientist<'a, R> for Reed {
        type P = PrintPublisher;

        fn get_publisher() -> Self::P {
            return PrintPublisher {};
        }
    }

    let r = Reed::conduct("conduct test", |mut experiment: Controlled<i32>| {
        experiment.control(ok(|| 1))?;
        experiment.candidate("candidate", ok(|| 2))?;
        Ok(experiment)
    });

    assert_eq!(Some(1), r.ok());
}

#[test]
fn should_be_able_to_run_experiment_with_only_control() {
    let mut experiment: Controlled<&str> = Experiment::default();
    experiment.control(ok(|| "control")).unwrap();

    let result = experiment.run().unwrap();

    assert_eq!("control", result);
}

#[test]
fn should_always_return_control_result() {
    let mut experiment: Controlled<&str> = Experiment::default();
    experiment.control(ok(|| "control")).unwrap();
    experiment.candidate("candidate", ok(|| "candidate")).unwrap();

    let result = experiment.run().unwrap();

    assert_eq!("control", result);
}

#[test]
fn should_be_able_to_specify_control_name() {
    let mut experiment: Controlled<&str> = Experiment::new("custom control");
    experiment.control(ok(|| "value")).unwrap();

    assert_eq!("custom control", experiment.name);
}

#[test]
fn should_return_error_when_controlled_experiment_has_no_control_defined() {
    let mut experiment: Controlled<i32> = Experiment::default();
    experiment.candidate("candidate", ok(|| 1)).unwrap();

    let result = experiment.run();

    let expected = VictorsErrors::BehaviorMissing(BehaviorMissing {
        experiment_name: "experiment".to_string(),
        name: "control".to_string(),
    });
    assert_eq!(expected, result.unwrap_err());
}

#[test]
fn should_return_error_when_uncontrolled_experiment_primary_behavior_is_missing() {
    let mut experiment: Uncontrolled<&str> = UncontrolledExperiment::default();
    experiment.candidate("candidate", ok(|| "value")).unwrap();

    let result = experiment.run("candidont");

    let expected = VictorsErrors::BehaviorMissing(BehaviorMissing {
        experiment_name: "experiment".to_string(),
        name: "candidont".to_string(),
    });
    assert_eq!(expected, result.unwrap_err());
}

#[test]
fn should_not_run_experiment_when_disabled() {
    let called = RefCell::new(false);

    let mut experiment: Controlled<i32> = Experiment::default();
    experiment.control(ok(|| 1)).unwrap();
    experiment
        .candidate(
            "candidate",
            ok(|| {
                called.replace(true);
                1
            }),
        )
        .unwrap();
    experiment.enabled(Box::new(|| false));

    let result = experiment.run().unwrap();

    assert_eq!(1, result);
    assert!(!called.take());
}

#[test]
fn should_allow_to_init_experiment_with_context() {
    let mut experiment: Controlled<u8> = Experiment::new_with_context("experiment", hello_world());
    experiment.control(ok(|| 1)).unwrap();

    assert_eq!(hello_world(), experiment.context);
}

#[test]
fn should_allow_custom_context_to_be_passed_in() {
    let r: RefCell<Option<ExperimentResult<u8>>> = RefCell::new(None);

    let mut experiment: Controlled<u8> = Experiment::default();
    experiment.add_context(hello_world());
    experiment.control(ok(|| 1)).unwrap();
    experiment.candidate("candidate", ok(|| 1)).unwrap();
    experiment.result_publisher(InMemoryPublisher::new(|result: &ExperimentResult<u8>| {
        r.replace(Some(result.clone()));
    }));

    experiment.run().unwrap();

    assert_eq!(hello_world(), experiment.context);
}

#[test]
fn should_shuffle_behaviors_execution_order() {
    let last = RefCell::new("");
    let mut runs = HashSet::new();

    let mut experiment: Controlled<()> = Experiment::default();
    experiment
        .control(ok(|| {
            last.replace("control");
        }))
        .unwrap();
    experiment
        .candidate(
            "candidate",
            ok(|| {
                last.replace("candidate");
            }),
        )
        .unwrap();
    for _ in 0..1000 {
        experiment.run().unwrap();
        runs.insert(last.take());
    }

    assert!(runs.len() > 1);
}

#[test]
fn should_not_run_candidates_when_run_if_returns_false() {
    let called = RefCell::new(false);

    let mut experiment: Controlled<i32> = Experiment::default();
    experiment.control(ok(|| 1)).unwrap();
    experiment
        .candidate(
            "candidate",
            ok(|| {
                called.replace(true);
                1
            }),
        )
        .unwrap();
    experiment.run_if(Box::new(|| false));

    experiment.run().unwrap();

    assert!(!called.take());
}

#[test]
fn should_run_candidates_when_run_if_returns_true() {
    let called = RefCell::new(false);

    let mut experiment: Controlled<i32> = Experiment::default();
    experiment.control(ok(|| 1)).unwrap();
    experiment
        .candidate(
            "candidate",
            ok(|| {
                called.replace(true);
                1
            }),
        )
        .unwrap();
    experiment.run_if(Box::new(|| true));

    experiment.run().unwrap();

    assert!(called.take());
}

#[test]
fn should_be_able_to_create_and_run_experiment_via_victor() {
    let r = Victor::conduct("conduct test", |mut experiment: Controlled<i32>| {
        experiment.control(ok(|| 1))?;
        experiment.candidate("candidate", ok(|| 2))?;
        Ok(experiment)
    });

    assert_eq!(Some(1), r.ok());
}

#[test]
fn should_be_able_to_create_and_run_uncontrolled_experiment_via_victor() {
    let r = Victor::conduct_uncontrolled(
        "uncontrolled test",
        "second",
        |mut experiment: Uncontrolled<i32>| {
            experiment.candidate("first", ok(|| 1))?;
            experiment.candidate("second", ok(|| 2))?;
            Ok(experiment)
        },
    );

    assert_eq!(Some(2), r.ok());
}

#[test]
fn should_call_ignore_blocks_until_match() {
    let (called_one, called_two, called_three) =
        (RefCell::new(false), RefCell::new(false), RefCell::new(false));

    let mut experiment: Controlled<u8> = Experiment::default();
    experiment.add_ignore(Box::new(|_a, _b| {
        called_one.replace(true);
        false
    }));
    experiment.add_ignore(Box::new(|_a, _b| {
        called_two.replace(true);
        true
    }));
    experiment.add_ignore(Box::new(|_a, _b| {
        called_three.replace(true);
        false
    }));

    let a = create_observation("a");
    let b = create_observation("b");

    assert!(experiment.ignore_mismatch_observation(&a, &b));
    assert!(called_one.take());
    assert!(called_two.take());
    assert!(!called_three.take());
}

#[test]
fn should_return_non_unique_error_with_multiple_controls() {
    let mut experiment: Controlled<&str> = Experiment::default();
    experiment.control(ok(|| "control")).unwrap();
    let result = experiment.control(ok(|| "control again"));

    let expected = VictorsErrors::BehaviorNotUnique(BehaviorNotUnique {
        experiment_name: "experiment".to_string(),
        name: "control".to_string(),
    });
    assert_eq!(expected, result.unwrap_err());
}

#[test]
fn should_return_non_unique_error_when_multiple_candidates_are_registered_with_same_name() {
    let mut experiment: Controlled<&str> = Experiment::default();
    experiment.control(ok(|| "value")).unwrap();
    experiment.candidate("candidate", ok(|| "candidate")).unwrap();
    let result = experiment.candidate("candidate", ok(|| "candidate"));

    let expected = VictorsErrors::BehaviorNotUnique(BehaviorNotUnique {
        experiment_name: "experiment".to_string(),
        name: "candidate".to_string(),
    });
    assert_eq!(expected, result.unwrap_err());
}

#[test]
fn should_not_publish_results_when_there_is_only_a_control_value() {
    let r: RefCell<Option<ExperimentResult<u8>>> = RefCell::new(None);

    let mut experiment: Controlled<u8> = Experiment::new_with_context("experiment", hello_world());
    experiment.control(ok(|| 1)).unwrap();
    experiment.result_publisher(InMemoryPublisher::new(|result: &ExperimentResult<u8>| {
        r.replace(Some(result.clone()));
    }));

    experiment.run().unwrap();

    assert!(r.take().is_none());
}

#[test]
fn should_compare_results_with_comparator_when_provided() {
    #[derive(Clone, PartialEq)]
    struct TestResult {
        count: u8,
        message: &'static str,
    }

    let r: RefCell<Option<ExperimentResult<TestResult>>> = RefCell::new(None);

    let mut experiment: Controlled<TestResult> = Experiment::default();
    experiment
        .control(ok(|| TestResult {
            count: 1,
            message: "control msg",
        }))
        .unwrap();
    experiment
        .candidate(
            "candidate",
            ok(|| TestResult {
                count: 1,
                message: "candidate msg",
            }),
        )
        .unwrap();
    experiment.comparator(Box::new(|a, b| a.count == b.count));
    experiment.result_publisher(InMemoryPublisher::new(
        |result: &ExperimentResult<TestResult>| {
            r.replace(Some(result.clone()));
        },
    ));

    let value = experiment.run().unwrap();
    assert_eq!(1, value.count);
    assert_eq!("control msg", value.message);
    assert!(r.take().unwrap().matched());
}

#[test]
fn should_execute_before_run_when_experiment_is_enabled() {
    let (control_ok, candidate_ok) = (RefCell::new(false), RefCell::new(false));
    let before_run_called = RefCell::new(false);

    let mut experiment: Controlled<()> = Experiment::default();
    experiment.before_run(Box::new(|| {
        before_run_called.replace(true);
    }));
    experiment
        .control(ok(|| {
            control_ok.replace(*before_run_called.borrow());
        }))
        .unwrap();
    experiment
        .candidate(
            "candidate",
            ok(|| {
                candidate_ok.replace(*before_run_called.borrow());
            }),
        )
        .unwrap();

    experiment.run().unwrap();

    assert!(before_run_called.take());
    assert!(control_ok.take());
    assert!(candidate_ok.take());
}

#[test]
fn should_not_execute_before_run_when_experiment_is_disabled() {
    let before_run_called = RefCell::new(false);

    let mut experiment: Controlled<i32> = Experiment::default();
    experiment.enabled(Box::new(|| false));
    experiment.before_run(Box::new(|| {
        before_run_called.replace(true);
    }));
    experiment.control(ok(|| 1)).unwrap();
    experiment.candidate("candidate", ok(|| 1)).unwrap();

    experiment.run().unwrap();

    assert!(!before_run_called.take());
}
