use victors::errors::{
    BadBehavior, BehaviorMissing, BehaviorNotUnique, MismatchError, VictorsErrors,
};

fn bad(experiment: &str, name: &str, message: &str) -> VictorsErrors {
    VictorsErrors::BadBehavior(BadBehavior {
        experiment: experiment.to_string(),
        name: name.to_string(),
        message: message.to_string(),
    })
}

fn missing(experiment_name: &str, name: &str) -> VictorsErrors {
    VictorsErrors::BehaviorMissing(BehaviorMissing {
        experiment_name: experiment_name.to_string(),
        name: name.to_string(),
    })
}

fn not_unique(experiment_name: &str, name: &str) -> VictorsErrors {
    VictorsErrors::BehaviorNotUnique(BehaviorNotUnique {
        experiment_name: experiment_name.to_string(),
        name: name.to_string(),
    })
}

fn mismatch(experiment_name: &str, exception: Option<&str>, message: &str) -> VictorsErrors {
    VictorsErrors::MismatchError(MismatchError {
        experiment_name: experiment_name.to_string(),
        exception: exception.map(|text| text.to_string()),
        message: message.to_string(),
    })
}

#[test]
fn errors_of_one_kind_are_equal_when_their_strings_are() {
    assert_eq!(bad("e", "n", "m"), bad("e", "n", "m"));
    assert_ne!(bad("e", "n", "m"), bad("x", "n", "m"));
    assert_ne!(bad("e", "n", "m"), bad("e", "x", "m"));
    assert_ne!(bad("e", "n", "m"), bad("e", "n", "x"));

    assert_eq!(missing("e", "n"), missing("e", "n"));
    assert_ne!(missing("e", "n"), missing("x", "n"));
    assert_ne!(missing("e", "n"), missing("e", "x"));

    assert_eq!(not_unique("e", "n"), not_unique("e", "n"));
    assert_ne!(not_unique("e", "n"), not_unique("x", "n"));
    assert_ne!(not_unique("e", "n"), not_unique("e", "x"));

    assert_eq!(
        VictorsErrors::NoValue("n".to_string()),
        VictorsErrors::NoValue("n".to_string())
    );
    assert_ne!(
        VictorsErrors::NoValue("n".to_string()),
        VictorsErrors::NoValue("x".to_string())
    );

    assert_eq!(VictorsErrors::Msg("m".to_string()), VictorsErrors::Msg("m".to_string()));
    assert_ne!(VictorsErrors::Msg("m".to_string()), VictorsErrors::Msg("x".to_string()));
}

#[test]
fn mismatch_errors_are_compared_without_their_exception() {
    assert_eq!(mismatch("e", None, "m"), mismatch("e", Some("boom"), "m"));
    assert_ne!(mismatch("e", None, "m"), mismatch("x", None, "m"));
    assert_ne!(mismatch("e", None, "m"), mismatch("e", None, "x"));
}

#[test]
fn errors_of_different_kinds_are_never_equal() {
    let all = vec![
        bad("e", "n", "m"),
        missing("e", "n"),
        not_unique("e", "n"),
        mismatch("e", None, "n"),
        VictorsErrors::NoValue("n".to_string()),
        VictorsErrors::Msg("n".to_string()),
    ];

    for (i, a) in all.iter().enumerate() {
        for (j, b) in all.iter().enumerate() {
            assert_eq!(i == j, a == b);
        }
    }
}

#[test]
fn every_error_says_what_failed() {
    assert_eq!("slow", bad("checkout", "slow", "took too long").message());
    assert_eq!("checkout missing control behavior", missing("checkout", "control").message());
    assert_eq!(
        "checkout already has candidate behavior",
        not_unique("checkout", "candidate").message()
    );
    assert_eq!(
        "experiment 'checkout' observations mismatched",
        mismatch("checkout", None, "").message()
    );
    assert_eq!(
        "candidate didn't return a value",
        VictorsErrors::NoValue("candidate".to_string()).message()
    );
    assert_eq!("as it is", VictorsErrors::Msg("as it is".to_string()).message());
}
