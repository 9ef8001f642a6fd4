//! What holds of every experiment, proved once from the contracts of the
//! functions that register behaviors, run them and judge their observations.

use crate::errors::VictorsResult;
use crate::experiment::Setup;
use crate::experiment_result::Outcome;
use crate::observation::Observation;
use serde_json::Value;
use vstd::prelude::*;

verus! {

/// Once a behavior is registered under a name, registering another under
/// that name is refused with the failure that names the experiment and the
/// behavior, and the setup stays as it was: the behavior that goes by the
/// name is still the one that came first.
pub proof fn second_registration_is_refused<R, B, G, H, C, I, V, E>(
    setup: Setup<B, G, H, C, I, V, E>,
    name: Seq<char>,
    first: B,
    second: B,
    done: VictorsResult<()>,
) where
    R: Clone + PartialEq,
    B: Fn() -> Result<R, String>,
    G: Fn() -> bool,
    H: Fn(),
    C: Fn(&R) -> R,
    I: Fn(&Observation<R>, &Observation<R>) -> bool,
    V: Fn(&R, &R) -> bool,
    E: Fn(&String, &String) -> bool,

    requires
        crate::registry::distinct_names(setup.registry),
        setup.registered(name, first).registration(name, done),
    ensures
        done matches Err(e) && e@ == (crate::errors::Failure::BehaviorNotUnique {
            experiment_name: setup.name,
            name,
        }),
        setup.registered(name, first).registered(name, second) == setup.registered(name, first),
        crate::registry::distinct_names(setup.registered(name, first).registry),
        setup.registered(name, first).has_behavior(name),
        setup.registered(name, first).behavior(name) == if setup.has_behavior(name) {
            setup.behavior(name)
        } else {
            first
        },
{
    let once = setup.registered(name, first);
    if !setup.has_behavior(name) {
        let last = setup.registry.len() as int;
        assert(once.registry[last].0 == name);
        assert(crate::registry::distinct_names(once.registry));
        once.lemma_place_of(last);
    }
}

/// A run that is to return the value of a behavior that was never
/// registered fails with the failure that names the experiment and the
/// behavior, whatever else the experiment is set up with.
pub proof fn missing_primary_fails<R, B, G, H, C, I, V, E>(
    setup: Setup<B, G, H, C, I, V, E>,
    name: Seq<char>,
    out: VictorsResult<R>,
) where
    R: Clone + PartialEq,
    B: Fn() -> Result<R, String>,
    G: Fn() -> bool,
    H: Fn(),
    C: Fn(&R) -> R,
    I: Fn(&Observation<R>, &Observation<R>) -> bool,
    V: Fn(&R, &R) -> bool,
    E: Fn(&String, &String) -> bool,

    requires
        !setup.has_behavior(name),
        setup.may_return(name, out),
    ensures
        setup.fails_as_missing(name, out),
{
}

/// With one behavior registered, a run that is to return its value hands
/// back what the behavior gave, value or failure: nothing is compared, and
/// no setting can make the run fail with a mismatch.
pub proof fn single_behavior_passes_through<R, B, G, H, C, I, V, E>(
    setup: Setup<B, G, H, C, I, V, E>,
    name: Seq<char>,
    out: VictorsResult<R>,
) where
    R: Clone + PartialEq,
    B: Fn() -> Result<R, String>,
    G: Fn() -> bool,
    H: Fn(),
    C: Fn(&R) -> R,
    I: Fn(&Observation<R>, &Observation<R>) -> bool,
    V: Fn(&R, &R) -> bool,
    E: Fn(&String, &String) -> bool,

    requires
        setup.registry.len() == 1,
        setup.has_behavior(name),
        setup.may_return(name, out),
    ensures
        setup.relays_behavior(name, out),
{
}

/// In every result of executing all behaviors, the primary observation is
/// the one of the behavior that the run was asked for.
pub proof fn primary_observation_is_of_primary_behavior<R, B, G, H, C, I, V, E>(
    setup: Setup<B, G, H, C, I, V, E>,
    outcome: Outcome<R>,
    name: Seq<char>,
) where
    R: Clone + PartialEq,
    B: Fn() -> Result<R, String>,
    G: Fn() -> bool,
    H: Fn(),
    C: Fn(&R) -> R,
    I: Fn(&Observation<R>, &Observation<R>) -> bool,
    V: Fn(&R, &R) -> bool,
    E: Fn(&String, &String) -> bool,

    requires
        crate::registry::distinct_names(setup.registry),
        setup.produces(outcome, name),
    ensures
        setup.has_behavior(name),
        setup.may_observe(setup.place_of(name), outcome.control()),
{
    let order = choose|order: Seq<int>|
        {
            &&& #[trigger] crate::experiment::is_permutation(order, setup.registry.len())
            &&& outcome.observations.len() == setup.registry.len()
            &&& forall|k: int|
                0 <= k < outcome.observations.len() ==> setup.may_observe(
                    order[k],
                    #[trigger] outcome.observations[k],
                )
        };
    let at = order[outcome.primary];
    assert(setup.may_observe(at, outcome.control()));
    setup.lemma_place_of(at);
}

/// In every result of executing all behaviors, every behavior has been
/// executed: each has an observation of its own.
pub proof fn every_behavior_is_observed<R, B, G, H, C, I, V, E>(
    setup: Setup<B, G, H, C, I, V, E>,
    outcome: Outcome<R>,
    name: Seq<char>,
    place: int,
) -> (at: int) where
    R: Clone + PartialEq,
    B: Fn() -> Result<R, String>,
    G: Fn() -> bool,
    H: Fn(),
    C: Fn(&R) -> R,
    I: Fn(&Observation<R>, &Observation<R>) -> bool,
    V: Fn(&R, &R) -> bool,
    E: Fn(&String, &String) -> bool,

    requires
        setup.produces(outcome, name),
        0 <= place < setup.registry.len(),
    ensures
        0 <= at < outcome.observations.len(),
        setup.may_observe(place, outcome.observations[at]),
{
    let order = choose|order: Seq<int>|
        {
            &&& #[trigger] crate::experiment::is_permutation(order, setup.registry.len())
            &&& outcome.observations.len() == setup.registry.len()
            &&& forall|k: int|
                0 <= k < outcome.observations.len() ==> setup.may_observe(
                    order[k],
                    #[trigger] outcome.observations[k],
                )
        };
    assert(order.contains(place));
    let at = choose|at: int| 0 <= at < order.len() && order[at] == place;
    at
}

/// A run that hands back what the primary observation of a result holds
/// hands back what the primary behavior gave.
pub proof fn primary_observation_is_handed_back<R, B, G, H, C, I, V, E>(
    setup: Setup<B, G, H, C, I, V, E>,
    outcome: Outcome<R>,
    name: Seq<char>,
    out: VictorsResult<R>,
) where
    R: Clone + PartialEq,
    B: Fn() -> Result<R, String>,
    G: Fn() -> bool,
    H: Fn(),
    C: Fn(&R) -> R,
    I: Fn(&Observation<R>, &Observation<R>) -> bool,
    V: Fn(&R, &R) -> bool,
    E: Fn(&String, &String) -> bool,

    requires
        crate::registry::distinct_names(setup.registry),
        setup.produces(outcome, name),
        setup.relays_observation(outcome.control(), out),
    ensures
        setup.relays_behavior(name, out),
{
    primary_observation_is_of_primary_behavior(setup, outcome, name);
    let primary = outcome.control();
    let got = choose|got: Result<R, String>| #[trigger]
        call_ensures(setup.registry[setup.place_of(name)].1, (), got) && setup.records(
            got,
            primary,
        );
    assert(call_ensures(setup.behavior(name), (), got) && setup.hands_back(name, got, out));
}

/// Whatever is registered and in whatever order the behaviors are executed,
/// a value that a run returns is one that the primary behavior gave, and a
/// run that does not fail for a mismatch hands back what the primary
/// behavior gave, value or failure.
pub proof fn primary_always_wins<R, B, G, H, C, I, V, E>(
    setup: Setup<B, G, H, C, I, V, E>,
    name: Seq<char>,
    out: VictorsResult<R>,
) where
    R: Clone + PartialEq,
    B: Fn() -> Result<R, String>,
    G: Fn() -> bool,
    H: Fn(),
    C: Fn(&R) -> R,
    I: Fn(&Observation<R>, &Observation<R>) -> bool,
    V: Fn(&R, &R) -> bool,
    E: Fn(&String, &String) -> bool,

    requires
        crate::registry::distinct_names(setup.registry),
        setup.may_return(name, out),
    ensures
        out matches Ok(value) ==> setup.has_behavior(name) && call_ensures(
            setup.behavior(name),
            (),
            Ok::<R, String>(value),
        ),
        setup.has_behavior(name) && !setup.fails_as_mismatch(out) ==> setup.relays_behavior(
            name,
            out,
        ),
{
    if setup.has_behavior(name) && !setup.fails_as_mismatch(out) {
        if !(setup.may_run(false) && setup.relays_behavior(name, out)) {
            let outcome = choose|outcome: Outcome<R>| #[trigger]
                setup.produces(outcome, name) && setup.concludes(outcome, out);
            primary_observation_is_handed_back(setup, outcome, name, out);
        }
        let got = choose|got: Result<R, String>| #[trigger]
            call_ensures(setup.behavior(name), (), got) && setup.hands_back(name, got, out);
        assert(out is Ok ==> got == Ok::<R, String>(out->Ok_0));
    }
}

/// Let `enabled` and `run_if` be what the two gates answer. Where one of
/// them is no, a run hands back what the primary behavior gave and compares
/// nothing, so that no mismatch can make it fail. Where both are yes and two
/// behaviors or more are registered, the run concludes from a result for
/// which every behavior was executed.
pub proof fn gates_decide<R, B, G, H, C, I, V, E>(
    setup: Setup<B, G, H, C, I, V, E>,
    name: Seq<char>,
    out: VictorsResult<R>,
    enabled: bool,
    run_if: bool,
) where
    R: Clone + PartialEq,
    B: Fn() -> Result<R, String>,
    G: Fn() -> bool,
    H: Fn(),
    C: Fn(&R) -> R,
    I: Fn(&Observation<R>, &Observation<R>) -> bool,
    V: Fn(&R, &R) -> bool,
    E: Fn(&String, &String) -> bool,

    requires
        setup.has_behavior(name),
        setup.may_return(name, out),
        forall|answer: bool|
            Setup::<B, G, H, C, I, V, E>::gate_says(setup.enabled, answer) ==> answer == enabled,
        forall|answer: bool|
            Setup::<B, G, H, C, I, V, E>::gate_says(setup.run_if, answer) ==> answer == run_if,
    ensures
        !(enabled && run_if) ==> setup.relays_behavior(name, out),
        enabled && run_if && setup.registry.len() >= 2 ==> exists|outcome: Outcome<R>| #[trigger]
            setup.produces(outcome, name) && setup.concludes(outcome, out),
{
}

/// Where a candidate's observation is never found equivalent to the primary
/// one and some ignore predicate never answers no to the pair, the result
/// lists the observation as ignored and not as mismatched, and does not
/// count as matched.
pub proof fn ignore_suppresses_a_mismatch<R, B, G, H, C, I, V, E>(
    setup: Setup<B, G, H, C, I, V, E>,
    outcome: Outcome<R>,
    candidate: int,
    predicate: int,
) where
    R: Clone + PartialEq,
    B: Fn() -> Result<R, String>,
    G: Fn() -> bool,
    H: Fn(),
    C: Fn(&R) -> R,
    I: Fn(&Observation<R>, &Observation<R>) -> bool,
    V: Fn(&R, &R) -> bool,
    E: Fn(&String, &String) -> bool,

    requires
        outcome.wf(),
        setup.judged(outcome),
        0 <= candidate < outcome.observations.len(),
        candidate != outcome.primary,
        !setup.equivalence(outcome.control(), outcome.observations[candidate], true),
        0 <= predicate < setup.ignores.len(),
        !call_ensures(
            setup.ignores[predicate],
            (&outcome.control(), &outcome.observations[candidate]),
            false,
        ),
    ensures
        outcome.ignored.contains(candidate),
        !outcome.mismatched.contains(candidate),
        !outcome.matched(),
{
    assert(setup.may_judge(
        outcome.control(),
        outcome.observations[candidate],
        outcome.verdict(candidate),
    ));
}

/// The ignore predicates decide by the first yes: a mismatch is ignored as
/// soon as some predicate never answers no to it, whatever the predicates
/// behind that one would answer, and it is not ignored where no predicate
/// can answer yes, as is the case where there is none.
pub proof fn first_yes_decides<R, B, G, H, C, I, V, E>(
    setup: Setup<B, G, H, C, I, V, E>,
    control: Observation<R>,
    candidate: Observation<R>,
    ignore: bool,
) where
    R: Clone + PartialEq,
    B: Fn() -> Result<R, String>,
    G: Fn() -> bool,
    H: Fn(),
    C: Fn(&R) -> R,
    I: Fn(&Observation<R>, &Observation<R>) -> bool,
    V: Fn(&R, &R) -> bool,
    E: Fn(&String, &String) -> bool,

    requires
        setup.ignore_verdict(control, candidate, ignore),
    ensures
        (exists|j: int|
            0 <= j < setup.ignores.len() && !#[trigger] call_ensures(
                setup.ignores[j],
                (&control, &candidate),
                false,
            )) ==> ignore,
        (forall|j: int|
            0 <= j < setup.ignores.len() ==> !#[trigger] call_ensures(
                setup.ignores[j],
                (&control, &candidate),
                true,
            )) ==> !ignore,
{
}

/// Without ignore predicates nothing is ignored: every observation that is
/// never found equivalent to the primary one is listed as mismatched.
pub proof fn nothing_is_ignored_without_predicates<R, B, G, H, C, I, V, E>(
    setup: Setup<B, G, H, C, I, V, E>,
    outcome: Outcome<R>,
) where
    R: Clone + PartialEq,
    B: Fn() -> Result<R, String>,
    G: Fn() -> bool,
    H: Fn(),
    C: Fn(&R) -> R,
    I: Fn(&Observation<R>, &Observation<R>) -> bool,
    V: Fn(&R, &R) -> bool,
    E: Fn(&String, &String) -> bool,

    requires
        outcome.wf(),
        setup.judged(outcome),
        setup.ignores.len() == 0,
    ensures
        outcome.ignored.len() == 0,
        forall|i: int|
            0 <= i < outcome.observations.len() && i != outcome.primary && !setup.equivalence(
                outcome.control(),
                #[trigger] outcome.observations[i],
                true,
            ) ==> outcome.mismatched.contains(i),
{
    if outcome.ignored.len() > 0 {
        let i = outcome.ignored[0];
        assert(setup.may_judge(outcome.control(), outcome.observations[i], outcome.verdict(i)));
    }
    assert forall|i: int|
        0 <= i < outcome.observations.len() && i != outcome.primary && !setup.equivalence(
            outcome.control(),
            #[trigger] outcome.observations[i],
            true,
        ) implies outcome.mismatched.contains(i) by {
        assert(setup.may_judge(outcome.control(), outcome.observations[i], outcome.verdict(i)));
    }
}

/// A context that was merged into the experiment before a run is part of
/// every result of that run, each of its keys with the value it was merged
/// with.
pub proof fn merged_context_reaches_the_result<R, B, G, H, C, I, V, E>(
    before: Setup<B, G, H, C, I, V, E>,
    added: Map<Seq<char>, Value>,
    outcome: Outcome<R>,
    name: Seq<char>,
) where
    R: Clone + PartialEq,
    B: Fn() -> Result<R, String>,
    G: Fn() -> bool,
    H: Fn(),
    C: Fn(&R) -> R,
    I: Fn(&Observation<R>, &Observation<R>) -> bool,
    V: Fn(&R, &R) -> bool,
    E: Fn(&String, &String) -> bool,

    requires
        (Setup { context: before.context.union_prefer_right(added), ..before }).produces(
            outcome,
            name,
        ),
    ensures
        outcome.context == before.context.union_prefer_right(added),
        forall|key: Seq<char>| #[trigger]
            added.contains_key(key) ==> outcome.context.contains_key(key) && outcome.context[key]
                == added[key],
{
}

/// Let the gating surely decide for comparing, and let some candidate be
/// such that its observation is never found equivalent to the primary one
/// and never ignored. Then a run that is to fail on mismatches fails with the
/// failure that names the experiment, and a run that is not hands back what
/// the primary behavior gave.
pub proof fn real_mismatch_escalates<R, B, G, H, C, I, V, E>(
    setup: Setup<B, G, H, C, I, V, E>,
    name: Seq<char>,
    candidate: Seq<char>,
    out: VictorsResult<R>,
) where
    R: Clone + PartialEq,
    B: Fn() -> Result<R, String>,
    G: Fn() -> bool,
    H: Fn(),
    C: Fn(&R) -> R,
    I: Fn(&Observation<R>, &Observation<R>) -> bool,
    V: Fn(&R, &R) -> bool,
    E: Fn(&String, &String) -> bool,

    requires
        crate::registry::distinct_names(setup.registry),
        setup.has_behavior(name),
        setup.has_behavior(candidate),
        candidate != name,
        setup.may_return(name, out),
        !setup.may_run(false),
        forall|a: Observation<R>, b: Observation<R>|
            #![trigger setup.equivalence(a, b, true)]
            setup.may_observe(setup.place_of(name), a) && setup.may_observe(
                setup.place_of(candidate),
                b,
            ) ==> !setup.equivalence(a, b, true) && !setup.ignore_verdict(a, b, true),
    ensures
        setup.err_on_mismatches ==> setup.fails_as_mismatch(out),
        !setup.err_on_mismatches ==> setup.relays_behavior(name, out),
{
    let outcome = choose|outcome: Outcome<R>| #[trigger]
        setup.produces(outcome, name) && setup.concludes(outcome, out);
    primary_observation_is_of_primary_behavior(setup, outcome, name);
    if !setup.err_on_mismatches {
        primary_observation_is_handed_back(setup, outcome, name, out);
    }
    let at = every_behavior_is_observed(setup, outcome, name, setup.place_of(candidate));
    let theirs = outcome.observations[at];
    assert(at != outcome.primary);
    assert(setup.may_judge(outcome.control(), theirs, outcome.verdict(at)));
    assert(!setup.equivalence(outcome.control(), theirs, true));
    assert(outcome.mismatched.contains(at));
}

/// A behavior that can only fail leaves, in every result of executing all
/// behaviors, an observation of its own that holds its failure as the error
/// and no value; and the result still holds one observation for each
/// registered behavior, wherever the failing one came in the order.
pub proof fn failure_is_recorded_and_stops_nothing<R, B, G, H, C, I, V, E>(
    setup: Setup<B, G, H, C, I, V, E>,
    outcome: Outcome<R>,
    name: Seq<char>,
    place: int,
) -> (at: int) where
    R: Clone + PartialEq,
    B: Fn() -> Result<R, String>,
    G: Fn() -> bool,
    H: Fn(),
    C: Fn(&R) -> R,
    I: Fn(&Observation<R>, &Observation<R>) -> bool,
    V: Fn(&R, &R) -> bool,
    E: Fn(&String, &String) -> bool,

    requires
        setup.produces(outcome, name),
        0 <= place < setup.registry.len(),
        forall|got: Result<R, String>| #[trigger]
            call_ensures(setup.registry[place].1, (), got) ==> got is Err,
    ensures
        0 <= at < outcome.observations.len(),
        outcome.observations.len() == setup.registry.len(),
        outcome.observations[at].name@ == setup.registry[place].0,
        outcome.observations[at].value is None,
        outcome.observations[at].cleaned_value is None,
        outcome.observations[at].error matches Some(error) && call_ensures(
            setup.registry[place].1,
            (),
            Err::<R, String>(error),
        ),
{
    let at = every_behavior_is_observed(setup, outcome, name, place);
    let got = choose|got: Result<R, String>| #[trigger]
        call_ensures(setup.registry[place].1, (), got) && setup.records(
            got,
            outcome.observations[at],
        );
    assert(got is Err);
    at
}

/// Where the primary behavior can only fail, a run either fails for a
/// mismatch, as it was told to, or fails with the failure of a bad behavior
/// that names the experiment and the behavior and has an error of the
/// behavior as its message. It never returns a value.
pub proof fn failure_of_the_primary_is_handed_back<R, B, G, H, C, I, V, E>(
    setup: Setup<B, G, H, C, I, V, E>,
    name: Seq<char>,
    out: VictorsResult<R>,
) where
    R: Clone + PartialEq,
    B: Fn() -> Result<R, String>,
    G: Fn() -> bool,
    H: Fn(),
    C: Fn(&R) -> R,
    I: Fn(&Observation<R>, &Observation<R>) -> bool,
    V: Fn(&R, &R) -> bool,
    E: Fn(&String, &String) -> bool,

    requires
        crate::registry::distinct_names(setup.registry),
        setup.has_behavior(name),
        setup.may_return(name, out),
        forall|got: Result<R, String>| #[trigger]
            call_ensures(setup.behavior(name), (), got) ==> got is Err,
    ensures
        out is Err,
        !setup.fails_as_mismatch(out) ==> exists|error: String| #[trigger]
            call_ensures(setup.behavior(name), (), Err::<R, String>(error)) && setup.hands_back(
                name,
                Err(error),
                out,
            ),
{
    if !setup.fails_as_mismatch(out) {
        primary_always_wins(setup, name, out);
        let got = choose|got: Result<R, String>| #[trigger]
            call_ensures(setup.behavior(name), (), got) && setup.hands_back(name, got, out);
        assert(got is Err);
        let error = got->Err_0;
        assert(call_ensures(setup.behavior(name), (), Err::<R, String>(error))
            && setup.hands_back(name, Err(error), out));
    }
}

} // verus!
