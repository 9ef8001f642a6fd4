//! Experiments: named behaviors, the hooks that steer a run, and the run itself.

use crate::context::Context;
use crate::errors::{
    BadBehavior, BehaviorMissing, BehaviorNotUnique, MismatchError, VictorsErrors, VictorsResult,
};
use crate::experiment_result::{ExperimentResult, Outcome, Verdict};
use crate::observation::Observation;
use crate::registry::Registry;
use crate::result_publisher::{NoopPublisher, Publisher};
use rand::seq::SliceRandom;
use serde_json::Value;
use std::time::{Duration, Instant};
use vstd::prelude::*;

verus! {

/// The name under which [`Experiment::control`] registers its behavior.
pub const CONTROL_NAME: &'static str = "control";

/// The name of an experiment that was made without one.
pub const DEFAULT_EXPERIMENT_NAME: &'static str = "experiment";

/// `std::time::Instant`, a reading of the clock.
#[verifier::external_type_specification]
#[verifier::external_body]
pub struct ExInstant(Instant);

/// `std::time::Instant::now` reads the clock. Nothing is promised of the reading.
pub assume_specification[ Instant::now ]() -> Instant;

/// `std::time::Instant::elapsed` gives the time since `start` was read.
/// Nothing is promised of it.
pub assume_specification[ Instant::elapsed ](start: &Instant) -> Duration;

/// `std::time::Duration::as_millis` gives a duration in whole milliseconds.
/// Nothing is promised of the number.
pub assume_specification[ Duration::as_millis ](duration: &Duration) -> u128;

/// `rand::seq::SliceRandom::shuffle` on the vector's slice, with the
/// generator of `rand::thread_rng`: it swaps elements of the slice among
/// themselves, so the vector holds afterwards what it held before, each
/// element as often as before, in an order that is left to chance.
#[verifier::external_body]
fn shuffle(order: &mut Vec<usize>)
    ensures
        final(order)@.to_multiset() == old(order)@.to_multiset(),
{
    order.shuffle(&mut rand::thread_rng());
}

/// Whether `order` names each of the places `0`, ..., `n - 1` exactly once.
pub open spec fn is_permutation(order: Seq<int>, n: nat) -> bool {
    &&& order.len() == n
    &&& order.no_duplicates()
    &&& forall|k: int| 0 <= k < order.len() ==> 0 <= #[trigger] order[k] < n
    &&& forall|i: int| 0 <= i < n ==> #[trigger] order.contains(i)
}

/// A sequence that holds what the places `0`, ..., `n - 1` in their own
/// order hold, each as often, names each of them exactly once.
proof fn lemma_shuffled_places(places: Seq<usize>, shuffled: Seq<usize>)
    requires
        forall|k: int| 0 <= k < places.len() ==> #[trigger] places[k] == k,
        shuffled.to_multiset() == places.to_multiset(),
    ensures
        is_permutation(crate::experiment_result::places(shuffled), places.len()),
{
    broadcast use vstd::seq_lib::group_to_multiset_ensures;

    places.to_multiset_ensures();
    shuffled.to_multiset_ensures();
    places.lemma_multiset_has_no_duplicates();
    shuffled.lemma_multiset_has_no_duplicates_conv();
    let order = crate::experiment_result::places(shuffled);
    assert forall|k: int| 0 <= k < order.len() implies 0 <= #[trigger] order[k] < places.len() by {
        assert(places.to_multiset().count(shuffled[k]) > 0);
    }
    assert forall|i: int| 0 <= i < places.len() implies #[trigger] order.contains(i) by {
        let place = places[i];
        assert(shuffled.to_multiset().count(place) > 0);
        let k = choose|k: int| 0 <= k < shuffled.len() && shuffled[k] == place;
        assert(order[k] == i);
    }
    assert(order.no_duplicates());
}

/// What an [`Experiment`] is set up with, as plain mathematics: every string
/// as its characters, every list as a sequence, the context as a mapping.
///
/// The type parameters are those of [`Experiment`].
#[verifier::ext_equal]
pub struct Setup<B, G, H, C, I, V, E> {
    pub name: Seq<char>,
    /// The behaviors with their names, in the order in which they were registered.
    pub registry: Seq<(Seq<char>, B)>,
    pub run_if: Option<G>,
    pub before_run: Option<H>,
    pub cleaner: Option<C>,
    pub enabled: Option<G>,
    pub context: Map<Seq<char>, Value>,
    /// The ignore predicates, in the order in which they were added.
    pub ignores: Seq<I>,
    pub err_on_mismatches: bool,
    pub comparator: Option<V>,
    pub error_comparator: Option<E>,
}

impl<R, B, G, H, C, I, V, E> Setup<B, G, H, C, I, V, E> where
    R: Clone + PartialEq,
    B: Fn() -> Result<R, String>,
    G: Fn() -> bool,
    H: Fn(),
    C: Fn(&R) -> R,
    I: Fn(&Observation<R>, &Observation<R>) -> bool,
    V: Fn(&R, &R) -> bool,
    E: Fn(&String, &String) -> bool,
 {
    /// What an experiment is set up with when it has just been made.
    pub open spec fn fresh(name: Seq<char>, context: Map<Seq<char>, Value>) -> Self {
        Setup {
            name,
            registry: Seq::empty(),
            run_if: None,
            before_run: None,
            cleaner: None,
            enabled: None,
            context,
            ignores: Seq::empty(),
            err_on_mismatches: false,
            comparator: None,
            error_comparator: None,
        }
    }

    /// Whether a behavior is registered under `name`.
    pub open spec fn has_behavior(self, name: Seq<char>) -> bool {
        crate::registry::has_name(self.registry, name)
    }

    /// Where in the registry the behavior called `name` stands.
    pub open spec fn place_of(self, name: Seq<char>) -> int {
        choose|i: int| 0 <= i < self.registry.len() && (#[trigger] self.registry[i]).0 == name
    }

    /// The behavior registered under `name`.
    pub open spec fn behavior(self, name: Seq<char>) -> B {
        self.registry[self.place_of(name)].1
    }

    /// With unique names, the place of a behavior's name is the behavior's place.
    pub proof fn lemma_place_of(self, i: int)
        requires
            crate::registry::distinct_names(self.registry),
            0 <= i < self.registry.len(),
        ensures
            self.has_behavior(self.registry[i].0),
            self.place_of(self.registry[i].0) == i,
            self.behavior(self.registry[i].0) == self.registry[i].1,
    {
        assert(self.place_of(self.registry[i].0) == i);
    }

    /// What registering `block` under `name` makes of the setup: the block
    /// stands behind the behaviors that were there, unless the name is taken;
    /// then nothing changes.
    pub open spec fn registered(self, name: Seq<char>, block: B) -> Self {
        if self.has_behavior(name) {
            self
        } else {
            Setup { registry: self.registry.push((name, block)), ..self }
        }
    }

    /// Whether `done` is what registering a behavior under `name` answers:
    /// the failure that names the experiment and the behavior where the name
    /// is taken, success otherwise.
    pub open spec fn registration(self, name: Seq<char>, done: VictorsResult<()>) -> bool {
        if self.has_behavior(name) {
            done matches Err(e) && e@ == (crate::errors::Failure::BehaviorNotUnique {
                experiment_name: self.name,
                name,
            })
        } else {
            done is Ok
        }
    }

    /// Every behavior and every hook may be called on whatever a run hands it.
    pub open spec fn ready(self) -> bool {
        &&& forall|i: int|
            0 <= i < self.registry.len() ==> call_requires((#[trigger] self.registry[i]).1, ())
        &&& self.run_if matches Some(gate) ==> call_requires(gate, ())
        &&& self.enabled matches Some(gate) ==> call_requires(gate, ())
        &&& self.before_run matches Some(hook) ==> call_requires(hook, ())
        &&& self.cleaner matches Some(cleaner) ==> forall|value: &R| #[trigger]
            call_requires(cleaner, (value,))
        &&& forall|j: int, control: &Observation<R>, candidate: &Observation<R>|
            0 <= j < self.ignores.len() ==> #[trigger] call_requires(
                self.ignores[j],
                (control, candidate),
            )
        &&& self.comparator matches Some(judge) ==> forall|a: &R, b: &R| #[trigger]
            call_requires(judge, (a, b))
        &&& self.error_comparator matches Some(judge) ==> forall|a: &String, b: &String|
            #[trigger] call_requires(judge, (a, b))
    }

    /// Whether `answer` is what asking `gate` may give. A gate that was never set says yes.
    pub open spec fn gate_says(gate: Option<G>, answer: bool) -> bool {
        match gate {
            Some(block) => call_ensures(block, (), answer),
            None => answer,
        }
    }

    /// Whether `go` is a decision that the gating of a run may come to.
    ///
    /// All behaviors are executed and compared only where at least two are
    /// registered, `enabled` says yes and `run_if` says yes, asked in that
    /// order and no further than the first no.
    pub open spec fn may_run(self, go: bool) -> bool {
        if go {
            &&& self.registry.len() > 1
            &&& Self::gate_says(self.enabled, true)
            &&& Self::gate_says(self.run_if, true)
        } else {
            ||| self.registry.len() <= 1
            ||| Self::gate_says(self.enabled, false)
            ||| (Self::gate_says(self.enabled, true) && Self::gate_says(self.run_if, false))
        }
    }

    /// Whether `verdict` is an answer that comparing the two observations may give.
    pub open spec fn equivalence(
        self,
        a: Observation<R>,
        b: Observation<R>,
        verdict: bool,
    ) -> bool {
        a.equivalence(
            &b,
            match self.comparator {
                Some(judge) => Some(&judge),
                None => None,
            },
            match self.error_comparator {
                Some(judge) => Some(&judge),
                None => None,
            },
            verdict,
        )
    }

    /// Whether `ignore` is an answer that asking the ignore predicates about
    /// a mismatch may give. They are asked in the order in which they were
    /// added; the first that says yes decides, and with none the answer is no.
    pub open spec fn ignore_verdict(
        self,
        control: Observation<R>,
        candidate: Observation<R>,
        ignore: bool,
    ) -> bool {
        if ignore {
            exists|j: int|
                {
                    &&& 0 <= j < self.ignores.len()
                    &&& #[trigger] call_ensures(self.ignores[j], (&control, &candidate), true)
                    &&& forall|k: int|
                        0 <= k < j ==> #[trigger] call_ensures(
                            self.ignores[k],
                            (&control, &candidate),
                            false,
                        )
                }
        } else {
            forall|j: int|
                0 <= j < self.ignores.len() ==> #[trigger] call_ensures(
                    self.ignores[j],
                    (&control, &candidate),
                    false,
                )
        }
    }

    /// Whether `verdict` is a way in which a candidate's observation may be
    /// found to compare with the control's: matched where the two are
    /// equivalent; otherwise ignored where an ignore predicate says so, and
    /// mismatched where none does.
    pub open spec fn may_judge(
        self,
        control: Observation<R>,
        candidate: Observation<R>,
        verdict: Verdict,
    ) -> bool {
        match verdict {
            Verdict::Matched => self.equivalence(control, candidate, true),
            Verdict::Mismatched => self.equivalence(control, candidate, false)
                && self.ignore_verdict(control, candidate, false),
            Verdict::Ignored => self.equivalence(control, candidate, false) && self.ignore_verdict(
                control,
                candidate,
                true,
            ),
        }
    }

    /// Whether `observation` records what a behavior gave.
    ///
    /// * Of a behavior that returned a value, it holds the value and no
    ///   error, and a cleaned value exactly where there is a cleaner: one
    ///   that the cleaner may make of the value.
    /// * Of a behavior that failed, it holds the error, no value and no
    ///   cleaned value.
    pub open spec fn records(self, got: Result<R, String>, observation: Observation<R>) -> bool {
        match got {
            Ok(value) => {
                &&& observation.value == Some(value)
                &&& observation.error is None
                &&& match self.cleaner {
                    Some(cleaner) => observation.cleaned_value matches Some(cleaned)
                        && call_ensures(cleaner, (&value,), cleaned),
                    None => observation.cleaned_value is None,
                }
            },
            Err(error) => {
                &&& observation.value is None
                &&& observation.cleaned_value is None
                &&& observation.error == Some(error)
            },
        }
    }

    /// Whether `observation` may be what executing the behavior at place `i`
    /// leaves: it bears the names of the behavior and of the experiment, and
    /// records something that the behavior may give, be it a value or a
    /// failure.
    pub open spec fn may_observe(self, i: int, observation: Observation<R>) -> bool {
        &&& observation.name@ == self.registry[i].0
        &&& observation.experiment_name@ == self.name
        &&& exists|got: Result<R, String>| #[trigger]
            call_ensures(self.registry[i].1, (), got) && self.records(got, observation)
    }

    /// Whether `observations` may be what executing every behavior once, in
    /// some order, leaves.
    pub open spec fn observes(self, observations: Seq<Observation<R>>) -> bool {
        exists|order: Seq<int>|
            {
                &&& #[trigger] is_permutation(order, self.registry.len())
                &&& observations.len() == self.registry.len()
                &&& forall|k: int|
                    0 <= k < observations.len() ==> self.may_observe(
                        order[k],
                        #[trigger] observations[k],
                    )
            }
    }

    /// Whether `outcome` may be the result of executing all behaviors with
    /// the behavior called `name` as the primary one.
    pub open spec fn produces(self, outcome: Outcome<R>, name: Seq<char>) -> bool {
        &&& outcome.wf()
        &&& outcome.experiment_name == self.name
        &&& outcome.context == self.context
        &&& self.observes(outcome.observations)
        &&& outcome.control().name@ == name
        &&& self.judged(outcome)
    }

    /// Whether `out` hands back to the caller what the behavior called
    /// `name` gave: its value as it is, its failure as the failure of a bad
    /// behavior that names the experiment and the behavior and has the
    /// behavior's error as its message.
    pub open spec fn hands_back(
        self,
        name: Seq<char>,
        got: Result<R, String>,
        out: VictorsResult<R>,
    ) -> bool {
        match got {
            Ok(value) => out == Ok::<R, VictorsErrors>(value),
            Err(error) => out matches Err(e) && e@ == (crate::errors::Failure::BadBehavior {
                experiment: self.name,
                name,
                message: error@,
            }),
        }
    }

    /// Whether `out` hands back something that the behavior called `name`
    /// may give.
    pub open spec fn relays_behavior(self, name: Seq<char>, out: VictorsResult<R>) -> bool {
        exists|got: Result<R, String>| #[trigger]
            call_ensures(self.behavior(name), (), got) && self.hands_back(name, got, out)
    }

    /// Whether `out` hands back what the observation `primary` holds: its
    /// error where it holds one, else its value, and where it holds neither,
    /// the failure that says that the behavior returned no value.
    pub open spec fn relays_observation(
        self,
        primary: Observation<R>,
        out: VictorsResult<R>,
    ) -> bool {
        match (primary.error, primary.value) {
            (Some(error), _) => self.hands_back(primary.name@, Err(error), out),
            (None, Some(value)) => self.hands_back(primary.name@, Ok(value), out),
            (None, None) => out matches Err(e) && e@ == (crate::errors::Failure::NoValue {
                name: primary.name@,
            }),
        }
    }

    /// Whether `out` is the failure of a run that was asked for a behavior
    /// that is not registered: it names the experiment and the behavior.
    pub open spec fn fails_as_missing(self, name: Seq<char>, out: VictorsResult<R>) -> bool {
        out matches Err(e) && e@ == (crate::errors::Failure::BehaviorMissing {
            experiment_name: self.name,
            name,
        })
    }

    /// Whether `out` is the failure of a run whose observations mismatched:
    /// it names the experiment, and has no exception and an empty message.
    pub open spec fn fails_as_mismatch(self, out: VictorsResult<R>) -> bool {
        out matches Err(e) && e@ == (crate::errors::Failure::Mismatch {
            experiment_name: self.name,
            exception: None,
            message: Seq::empty(),
        })
    }

    /// Whether `out` is what a run that came to `outcome` returns: the
    /// failure that names the experiment where the experiment is to fail on
    /// mismatches and there is one that was not ignored; what the primary
    /// observation holds otherwise, value or failure.
    pub open spec fn concludes(self, outcome: Outcome<R>, out: VictorsResult<R>) -> bool {
        if self.err_on_mismatches && outcome.mismatched.len() > 0 {
            self.fails_as_mismatch(out)
        } else {
            self.relays_observation(outcome.control(), out)
        }
    }

    /// Whether `out` is something that a run which is to return the value of
    /// the behavior called `name` may return.
    ///
    /// * Where no behavior goes by that name, it is the failure that names
    ///   the experiment and the behavior.
    /// * Where the gating decides against comparing, it hands back what the
    ///   behavior gave, value or failure.
    /// * Where the gating decides for it, it is what some result of
    ///   executing all behaviors concludes in.
    pub open spec fn may_return(self, name: Seq<char>, out: VictorsResult<R>) -> bool {
        if !self.has_behavior(name) {
            self.fails_as_missing(name, out)
        } else {
            ||| self.may_run(false) && self.relays_behavior(name, out)
            ||| {
                &&& self.may_run(true)
                &&& exists|outcome: Outcome<R>| #[trigger]
                    self.produces(outcome, name) && self.concludes(outcome, out)
            }
        }
    }

    /// Whether the result has compared every observation but the primary one
    /// with the primary one in a way that the hooks of this setup may give.
    pub open spec fn judged(self, outcome: Outcome<R>) -> bool {
        forall|i: int|
            0 <= i < outcome.observations.len() && i != outcome.primary ==> self.may_judge(
                outcome.control(),
                outcome.observations[i],
                #[trigger] outcome.verdict(i),
            )
    }
}

/// A controlled experiment: one behavior, registered as the control, is the
/// one whose value a run returns.
///
/// * `R` is what a behavior returns where it does not fail, `B` the type of
///   a behavior.
/// * `G` is the type of the two gates, `enabled` and `run_if`.
/// * `H` is the type of the hook that runs before the behaviors.
/// * `C` is the type of the cleaner.
/// * `I` is the type of an ignore predicate.
/// * `V` and `E` are the types of the comparators of values and of errors.
#[verifier::reject_recursive_types(R)]
pub struct Experiment<'a, R: Clone + PartialEq, B, G, H, C, I, V, E> {
    pub name: String,
    pub behaviors: Registry<B>,
    /// Used to disable an experiment. If this returns false the experiment will merely return the
    /// control value. Otherwise it defers to the experiment's configured enabled method.
    pub run_if_block: Option<G>,
    pub before_run_block: Option<H>,
    pub cleaner: Option<C>,
    /// `None` stands for an experiment that is always enabled.
    pub enabled: Option<G>,
    pub context: Context,
    pub ignores: Vec<I>,
    pub err_on_mismatches: bool,
    pub comparator: Option<V>,
    pub error_comparator: Option<E>,
    pub publisher: Box<dyn Publisher<R> + 'a>,
}

impl<'a, R, B, G, H, C, I, V, E> View for Experiment<'a, R, B, G, H, C, I, V, E> where
    R: Clone + PartialEq,
 {
    type V = Setup<B, G, H, C, I, V, E>;

    open spec fn view(&self) -> Setup<B, G, H, C, I, V, E> {
        Setup {
            name: self.name@,
            registry: self.behaviors@,
            run_if: self.run_if_block,
            before_run: self.before_run_block,
            cleaner: self.cleaner,
            enabled: self.enabled,
            context: self.context@,
            ignores: self.ignores@,
            err_on_mismatches: self.err_on_mismatches,
            comparator: self.comparator,
            error_comparator: self.error_comparator,
        }
    }
}

impl<'a, R, B, G, H, C, I, V, E> Experiment<'a, R, B, G, H, C, I, V, E> where
    R: Clone + PartialEq,
    B: Fn() -> Result<R, String>,
    G: Fn() -> bool,
    H: Fn(),
    C: Fn(&R) -> R,
    I: Fn(&Observation<R>, &Observation<R>) -> bool,
    V: Fn(&R, &R) -> bool,
    E: Fn(&String, &String) -> bool,
 {
    /// Every behavior and every hook may be called on whatever a run hands it.
    pub open spec fn ready(&self) -> bool {
        self@.ready()
    }

    /// Creates a new experiment with the name "experiment".
    pub fn default() -> (experiment: Self)
        ensures
            experiment.publisher == crate::result_publisher::boxed_publisher::<R, NoopPublisher>(
                NoopPublisher {  },
            ),
            experiment@ == Setup::<B, G, H, C, I, V, E>::fresh(
                DEFAULT_EXPERIMENT_NAME@,
                Map::empty(),
            ),
    {
        Self::new(DEFAULT_EXPERIMENT_NAME)
    }

    /// Creates a new experiment called `name`, with an empty context.
    pub fn new(name: &'static str) -> (experiment: Self)
        ensures
            experiment.publisher == crate::result_publisher::boxed_publisher::<R, NoopPublisher>(
                NoopPublisher {  },
            ),
            experiment@ == Setup::<B, G, H, C, I, V, E>::fresh(name@, Map::empty()),
    {
        Self::new_with_context(name, Context::new())
    }

    /// Creates a new experiment called `name` that starts with the context `context`.
    pub fn new_with_context(name: &'static str, context: Context) -> (experiment: Self)
        ensures
            experiment.publisher == crate::result_publisher::boxed_publisher::<R, NoopPublisher>(
                NoopPublisher {  },
            ),
            experiment@ == Setup::<B, G, H, C, I, V, E>::fresh(name@, context@),
    {
        let publisher: Box<dyn Publisher<R> + 'a> = Box::new(NoopPublisher {  });
        let experiment = Experiment {
            name: name.to_owned(),
            behaviors: Registry::new(),
            run_if_block: None,
            before_run_block: None,
            cleaner: None,
            enabled: None,
            context,
            ignores: Vec::new(),
            err_on_mismatches: false,
            comparator: None,
            error_comparator: None,
            publisher,
        };
        return experiment;
    }

    /// Define a block that determines whether or not the candidate behaviors should run.
    pub fn run_if(&mut self, block: G)
        ensures
            final(self).publisher == old(self).publisher,
            final(self)@ == (Setup { run_if: Some(block), ..old(self)@ }),
    {
        self.run_if_block = Some(block);
    }

    /// Define a block that says whether the experiment is enabled at all.
    pub fn enabled(&mut self, enabled: G)
        ensures
            final(self).publisher == old(self).publisher,
            final(self)@ == (Setup { enabled: Some(enabled), ..old(self)@ }),
    {
        self.enabled = Some(enabled);
    }

    /// Register a named behavior for this experiment.
    ///
    /// A name that is taken is refused, and the experiment stays as it was.
    pub fn candidate(&mut self, name: &str, f: B) -> (done: VictorsResult<()>)
        ensures
            final(self).publisher == old(self).publisher,
            crate::registry::distinct_names(final(self)@.registry),
            final(self)@ == old(self)@.registered(name@, f),
            old(self)@.registration(name@, done),
    {
        self.add_behavior(name, f)
    }

    /// Register the control behavior for this experiment.
    pub fn control(&mut self, f: B) -> (done: VictorsResult<()>)
        ensures
            final(self).publisher == old(self).publisher,
            crate::registry::distinct_names(final(self)@.registry),
            final(self)@ == old(self)@.registered(CONTROL_NAME@, f),
            old(self)@.registration(CONTROL_NAME@, done),
    {
        self.add_behavior(CONTROL_NAME, f)
    }

    fn add_behavior(&mut self, name: &str, f: B) -> (done: VictorsResult<()>)
        ensures
            final(self).publisher == old(self).publisher,
            crate::registry::distinct_names(final(self)@.registry),
            final(self)@ == old(self)@.registered(name@, f),
            old(self)@.registration(name@, done),
    {
        match self.behaviors.register(name.to_owned(), f) {
            Some(_) => Err(
                VictorsErrors::BehaviorNotUnique(
                    BehaviorNotUnique {
                        experiment_name: self.name.clone(),
                        name: name.to_owned(),
                    },
                ),
            ),
            None => Ok(()),
        }
    }

    /// Define a block of code to run before an experiment begins, if the experiment is enabled.
    pub fn before_run(&mut self, f: H)
        ensures
            final(self).publisher == old(self).publisher,
            final(self)@ == (Setup { before_run: Some(f), ..old(self)@ }),
    {
        self.before_run_block = Some(f);
    }

    /// A block to clean an observed value for publishing or storing.
    /// The block takes one argument, the observed value which will be cleaned.
    pub fn clean(&mut self, f: C)
        ensures
            final(self).publisher == old(self).publisher,
            final(self)@ == (Setup { cleaner: Some(f), ..old(self)@ }),
    {
        self.cleaner = Some(f);
    }

    /// Merges `context` into the context of the experiment. Where both have
    /// a key, the value of `context` stays.
    pub fn add_context(&mut self, context: Context)
        ensures
            final(self).publisher == old(self).publisher,
            final(self)@ == (Setup {
                context: old(self)@.context.union_prefer_right(context@),
                ..old(self)@
            }),
    {
        self.context.extend(context);
    }

    /// Configure experiment to ignore observations based on the given block.
    ///
    /// The block takes the control observation and a candidate observation
    /// which didn't match the control. If it returns true the mismatch is
    /// disregarded. Blocks are asked in the order in which they were added.
    pub fn add_ignore(&mut self, ignore_block: I)
        ensures
            final(self).publisher == old(self).publisher,
            final(self)@ == (Setup {
                ignores: old(self)@.ignores.push(ignore_block),
                ..old(self)@
            }),
    {
        self.ignores.push(ignore_block);
    }

    /// Whether to return an error when the control and a candidate mismatch.
    pub fn err_on_mismatches(&mut self, err_on_mismatches: bool)
        ensures
            final(self).publisher == old(self).publisher,
            final(self)@ == (Setup { err_on_mismatches, ..old(self)@ }),
    {
        self.err_on_mismatches = err_on_mismatches;
    }

    /// A block which compares two experimental values: the control value and a candidate value.
    pub fn comparator(&mut self, comparator: V)
        ensures
            final(self).publisher == old(self).publisher,
            final(self)@ == (Setup { comparator: Some(comparator), ..old(self)@ }),
    {
        self.comparator = Some(comparator);
    }

    /// A block which compares two experimental errors: the control error and a candidate error.
    pub fn error_comparator(&mut self, comparator: E)
        ensures
            final(self).publisher == old(self).publisher,
            final(self)@ == (Setup { error_comparator: Some(comparator), ..old(self)@ }),
    {
        self.error_comparator = Some(comparator);
    }

    /// Hands the results of later runs to `publisher`: it takes the place of
    /// the publisher that the experiment held, and nothing else changes.
    pub fn result_publisher<T: Publisher<R> + 'a>(&mut self, publisher: T)
        ensures
            final(self).publisher == crate::result_publisher::boxed_publisher::<R, T>(publisher),
            final(self)@ == old(self)@,
    {
        let boxed: Box<dyn Publisher<R> + 'a> = Box::new(publisher);
        self.publisher = boxed;
    }

    fn is_enabled(&self) -> (yes: bool)
        requires
            self.ready(),
        ensures
            Setup::<B, G, H, C, I, V, E>::gate_says(self@.enabled, yes),
    {
        match &self.enabled {
            Some(gate) => gate(),
            None => true,
        }
    }

    fn run_if_block_allows(&self) -> (yes: bool)
        requires
            self.ready(),
        ensures
            Setup::<B, G, H, C, I, V, E>::gate_says(self@.run_if, yes),
    {
        match &self.run_if_block {
            Some(gate) => gate(),
            None => true,
        }
    }

    fn should_experiment_run(&self) -> (go: bool)
        requires
            self.ready(),
        ensures
            self@.may_run(go),
    {
        self.behaviors.len() > 1 && self.is_enabled() && self.run_if_block_allows()
    }

    /// Whether the two observations are equivalent: by the comparators that
    /// were set, by `==` where none was.
    pub fn observations_are_equivalent(&self, a: &Observation<R>, b: &Observation<R>) -> (verdict:
        bool)
        requires
            self.ready(),
        ensures
            self@.equivalence(*a, *b, verdict),
    {
        a.equivalent_to(b, self.comparator.as_ref(), self.error_comparator.as_ref())
    }

    /// Whether a mismatch between the control observation and a candidate's is to be ignored.
    ///
    /// Calls the ignore blocks, in the order in which they were added, with
    /// the two observations, up to the first that returns true.
    pub fn ignore_mismatch_observation(
        &self,
        control: &Observation<R>,
        candidate: &Observation<R>,
    ) -> (ignore: bool)
        requires
            self.ready(),
        ensures
            self@.ignore_verdict(*control, *candidate, ignore),
    {
        let mut j: usize = 0;
        while j < self.ignores.len()
            invariant
                self.ready(),
                j <= self.ignores.len(),
                forall|k: int|
                    0 <= k < j ==> #[trigger] call_ensures(
                        self.ignores@[k],
                        (control, candidate),
                        false,
                    ),
            decreases self.ignores.len() - j,
        {
            let block = &self.ignores[j];
            assert(call_requires(self@.ignores[j as int], (control, candidate)));
            if block(control, candidate) {
                return true;
            }
            j += 1;
        }
        false
    }

    /// Executes the behavior at place `i` and notes what came of it: the
    /// value, cleaned where there is a cleaner, or the failure.
    fn observe(&self, i: usize) -> (observation: Observation<R>)
        requires
            self.ready(),
            i < self@.registry.len(),
        ensures
            self@.may_observe(i as int, observation),
    {
        let behavior = self.behaviors.block_at(i);
        let start = Instant::now();
        let got = behavior();
        let duration = start.elapsed().as_millis();
        let name = self.behaviors.name_at(i).clone();
        let experiment_name = self.name.clone();
        let ghost given = got;
        let observation = match got {
            Ok(value) => {
                let cleaned_value = match &self.cleaner {
                    Some(cleaner) => Some(cleaner(&value)),
                    None => None,
                };
                Observation::new(name, experiment_name, value, cleaned_value, duration)
            },
            Err(error) => Observation::failed(name, experiment_name, error, duration),
        };
        assert(call_ensures(self@.registry[i as int].1, (), given) && self@.records(
            given,
            observation,
        ));
        observation
    }

    /// Executes every behavior once, in an order that is shuffled anew each
    /// time, and assembles the result with the behavior called `name` as the
    /// primary one. A behavior that fails leaves its failure in its
    /// observation and keeps no other behavior from being executed.
    pub fn generate_result(&self, name: String) -> (made: VictorsResult<ExperimentResult<R>>)
        requires
            self.ready(),
        ensures
            match made {
                Ok(result) => self@.has_behavior(name@) && self@.produces(result@, name@),
                Err(e) => !self@.has_behavior(name@) && e@ == (
                crate::errors::Failure::BehaviorMissing {
                    experiment_name: self@.name,
                    name: name@,
                }),
            },
    {
        let n = self.behaviors.len();
        let mut order: Vec<usize> = Vec::new();
        let mut i: usize = 0;
        while i < n
            invariant
                i <= n,
                order@.len() == i,
                forall|k: int| 0 <= k < i ==> #[trigger] order@[k] == k,
            decreases n - i,
        {
            order.push(i);
            i += 1;
        }
        let ghost places = order@;
        shuffle(&mut order);
        proof {
            lemma_shuffled_places(places, order@);
        }
        self.observe_in_order(&order, name)
    }

    /// Executes every behavior once, in the order that `order` gives by the
    /// behaviors' places, and assembles the result with the behavior called
    /// `name` as the primary one: the observation at `k` is the one of the
    /// behavior at place `order[k]`.
    pub fn observe_in_order(&self, order: &Vec<usize>, name: String) -> (made: VictorsResult<
        ExperimentResult<R>,
    >)
        requires
            self.ready(),
            is_permutation(crate::experiment_result::places(order@), self@.registry.len()),
        ensures
            match made {
                Ok(result) => {
                    &&& self@.has_behavior(name@)
                    &&& self@.produces(result@, name@)
                    &&& forall|k: int|
                        0 <= k < order@.len() ==> self@.may_observe(
                            order@[k] as int,
                            #[trigger] result@.observations[k],
                        )
                },
                Err(e) => !self@.has_behavior(name@) && e@ == (
                crate::errors::Failure::BehaviorMissing {
                    experiment_name: self@.name,
                    name: name@,
                }),
            },
    {
        let n = self.behaviors.len();
        let mut observations: Vec<Observation<R>> = Vec::new();
        let mut observation_to_return_index: Option<usize> = None;
        let mut k: usize = 0;
        while k < n
            invariant
                self.ready(),
                n == self@.registry.len(),
                is_permutation(crate::experiment_result::places(order@), n as nat),
                order@.len() == n,
                k <= n,
                observations@.len() == k,
                forall|j: int|
                    0 <= j < k ==> self@.may_observe(order@[j] as int, #[trigger] observations@[j]),
                match observation_to_return_index {
                    Some(at) => at < k && self@.registry[order@[at as int] as int].0 == name@,
                    None => forall|j: int|
                        0 <= j < k ==> self@.registry[#[trigger] order@[j] as int].0 != name@,
                },
            decreases n - k,
        {
            assert(crate::experiment_result::places(order@)[k as int] == order@[k as int]);
            let at = order[k];
            let observation = self.observe(at);
            if *self.behaviors.name_at(at) == name {
                observation_to_return_index = Some(k);
            }
            observations.push(observation);
            k += 1;
        }
        match observation_to_return_index {
            None => {
                proof {
                    if self@.has_behavior(name@) {
                        let places = crate::experiment_result::places(order@);
                        assert(places.contains(self@.place_of(name@)));
                    }
                }
                Err(
                    VictorsErrors::BehaviorMissing(
                        BehaviorMissing { experiment_name: self.name.clone(), name },
                    ),
                )
            },
            Some(at) => {
                let result = ExperimentResult::new(self, observations, at);
                proof {
                    let places = crate::experiment_result::places(order@);
                    assert forall|j: int|
                        0 <= j < result@.observations.len() implies self@.may_observe(
                        places[j],
                        #[trigger] result@.observations[j],
                    ) by {
                        assert(places[j] == order@[j]);
                    }
                }
                Ok(result)
            },
        }
    }

    /// Hands back to the caller what the behavior called `name` gave: its
    /// value as it is, its failure as a bad behavior of this experiment.
    fn hand_back(&self, name: String, got: Result<R, String>) -> (out: VictorsResult<R>)
        ensures
            self@.hands_back(name@, got, out),
    {
        match got {
            Ok(value) => Ok(value),
            Err(message) => Err(
                VictorsErrors::BadBehavior(
                    BadBehavior { experiment: self.name.clone(), name, message },
                ),
            ),
        }
    }

    /// Run all the behaviors for this experiment, observing each and publishing the results.
    /// Return what the control gave: its value, or its failure as a bad behavior.
    pub fn run(&self) -> (out: VictorsResult<R>)
        requires
            self.ready(),
        ensures
            crate::registry::distinct_names(self@.registry),
            self@.may_return(CONTROL_NAME@, out),
    {
        self.internal_run(CONTROL_NAME)
    }

    /// Run all the behaviors for this experiment, observing each and publishing the results.
    /// Return what the behavior called `name` gave: its value, or its
    /// failure as a bad behavior.
    pub fn internal_run(&self, name: &str) -> (out: VictorsResult<R>)
        requires
            self.ready(),
        ensures
            crate::registry::distinct_names(self@.registry),
            self@.may_return(name@, out),
    {
        self.behaviors.has_distinct_names();
        let wanted = name.to_owned();
        match self.behaviors.position(&wanted) {
            None => {
                return Err(
                    VictorsErrors::BehaviorMissing(
                        BehaviorMissing { experiment_name: self.name.clone(), name: wanted },
                    ),
                );
            },
            Some(at) => {
                if !self.should_experiment_run() {
                    let block = self.behaviors.block_at(at);
                    let got = block();
                    proof {
                        self@.lemma_place_of(at as int);
                    }
                    return self.hand_back(wanted, got);
                }
            },
        }
        if let Some(before_block) = &self.before_run_block {
            before_block();
        }
        let result = match self.generate_result(wanted) {
            Ok(result) => result,
            Err(e) => {
                return Err(e);
            },
        };
        self.publisher.publish(&result);
        if self.err_on_mismatches && result.has_mismatches() {
            return Err(
                VictorsErrors::MismatchError(
                    MismatchError {
                        experiment_name: self.name.clone(),
                        exception: None,
                        message: String::new(),
                    },
                ),
            );
        }
        let Observation { name, value, error, .. } = result.into_control();
        match (error, value) {
            (Some(error), _) => self.hand_back(name, Err(error)),
            (None, Some(value)) => self.hand_back(name, Ok(value)),
            (None, None) => Err(VictorsErrors::NoValue(name)),
        }
    }
}

/// An experiment without a control: all behaviors are candidates, and each
/// run is told which candidate's value to return.
#[verifier::reject_recursive_types(R)]
pub struct UncontrolledExperiment<'a, R: Clone + PartialEq, B, G, H, C, I, V, E> {
    experiment: Experiment<'a, R, B, G, H, C, I, V, E>,
}

impl<'a, R, B, G, H, C, I, V, E> View for UncontrolledExperiment<'a, R, B, G, H, C, I, V, E> where
    R: Clone + PartialEq,
 {
    type V = Setup<B, G, H, C, I, V, E>;

    closed spec fn view(&self) -> Setup<B, G, H, C, I, V, E> {
        self.experiment@
    }
}

impl<'a, R, B, G, H, C, I, V, E> UncontrolledExperiment<'a, R, B, G, H, C, I, V, E> where
    R: Clone + PartialEq,
    B: Fn() -> Result<R, String>,
    G: Fn() -> bool,
    H: Fn(),
    C: Fn(&R) -> R,
    I: Fn(&Observation<R>, &Observation<R>) -> bool,
    V: Fn(&R, &R) -> bool,
    E: Fn(&String, &String) -> bool,
 {
    /// The experiment that holds the behaviors, the hooks and the publisher.
    pub closed spec fn experiment(&self) -> Experiment<'a, R, B, G, H, C, I, V, E> {
        self.experiment
    }

    /// Every behavior and every hook may be called on whatever a run hands it.
    pub open spec fn ready(&self) -> bool {
        self@.ready()
    }

    /// Creates a new experiment with the name "experiment".
    pub fn default() -> (experiment: Self)
        ensures
            experiment.experiment().publisher == crate::result_publisher::boxed_publisher::<
                R,
                NoopPublisher,
            >(NoopPublisher {  }),
            experiment@ == Setup::<B, G, H, C, I, V, E>::fresh(
                DEFAULT_EXPERIMENT_NAME@,
                Map::empty(),
            ),
    {
        Self { experiment: Experiment::default() }
    }

    /// Creates a new experiment called `name`, with an empty context.
    pub fn new(name: &'static str) -> (experiment: Self)
        ensures
            experiment.experiment().publisher == crate::result_publisher::boxed_publisher::<
                R,
                NoopPublisher,
            >(NoopPublisher {  }),
            experiment@ == Setup::<B, G, H, C, I, V, E>::fresh(name@, Map::empty()),
    {
        Self { experiment: Experiment::new(name) }
    }

    /// Creates a new experiment called `name` that starts with the context `context`.
    pub fn new_with_context(name: &'static str, context: Context) -> (experiment: Self)
        ensures
            experiment.experiment().publisher == crate::result_publisher::boxed_publisher::<
                R,
                NoopPublisher,
            >(NoopPublisher {  }),
            experiment@ == Setup::<B, G, H, C, I, V, E>::fresh(name@, context@),
    {
        Self { experiment: Experiment::new_with_context(name, context) }
    }

    /// Define a block that determines whether or not the behaviors should be compared.
    pub fn run_if(&mut self, block: G)
        ensures
            final(self).experiment().publisher == old(
                self,
            ).experiment().publisher,
            final(self)@ == (Setup { run_if: Some(block), ..old(self)@ }),
    {
        self.experiment.run_if(block)
    }

    /// Define a block that says whether the experiment is enabled at all.
    pub fn enabled(&mut self, enabled: G)
        ensures
            final(self).experiment().publisher == old(
                self,
            ).experiment().publisher,
            final(self)@ == (Setup { enabled: Some(enabled), ..old(self)@ }),
    {
        self.experiment.enabled(enabled)
    }

    /// Register a named behavior for this experiment.
    ///
    /// A name that is taken is refused, and the experiment stays as it was.
    pub fn candidate(&mut self, name: &str, f: B) -> (done: VictorsResult<()>)
        ensures
            final(self).experiment().publisher == old(
                self,
            ).experiment().publisher,
            crate::registry::distinct_names(final(self)@.registry),
            final(self)@ == old(self)@.registered(name@, f),
            old(self)@.registration(name@, done),
    {
        self.experiment.candidate(name, f)
    }

    /// Define a block of code to run before an experiment begins, if the experiment is enabled.
    pub fn before_run(&mut self, f: H)
        ensures
            final(self).experiment().publisher == old(
                self,
            ).experiment().publisher,
            final(self)@ == (Setup { before_run: Some(f), ..old(self)@ }),
    {
        self.experiment.before_run(f)
    }

    /// A block to clean an observed value for publishing or storing.
    /// The block takes one argument, the observed value which will be cleaned.
    pub fn clean(&mut self, f: C)
        ensures
            final(self).experiment().publisher == old(
                self,
            ).experiment().publisher,
            final(self)@ == (Setup { cleaner: Some(f), ..old(self)@ }),
    {
        self.experiment.clean(f)
    }

    /// Merges `context` into the context of the experiment. Where both have
    /// a key, the value of `context` stays.
    pub fn add_context(&mut self, context: Context)
        ensures
            final(self).experiment().publisher == old(
                self,
            ).experiment().publisher,
            final(self)@ == (Setup {
                context: old(self)@.context.union_prefer_right(context@),
                ..old(self)@
            }),
    {
        self.experiment.add_context(context)
    }

    /// Configure experiment to ignore observations based on the given block.
    pub fn add_ignore(&mut self, ignore_block: I)
        ensures
            final(self).experiment().publisher == old(
                self,
            ).experiment().publisher,
            final(self)@ == (Setup {
                ignores: old(self)@.ignores.push(ignore_block),
                ..old(self)@
            }),
    {
        self.experiment.add_ignore(ignore_block)
    }

    /// Whether to return an error when the primary behavior and another mismatch.
    pub fn err_on_mismatches(&mut self, err_on_mismatches: bool)
        ensures
            final(self).experiment().publisher == old(
                self,
            ).experiment().publisher,
            final(self)@ == (Setup { err_on_mismatches, ..old(self)@ }),
    {
        self.experiment.err_on_mismatches(err_on_mismatches)
    }

    /// A block which compares two experimental values.
    pub fn comparator(&mut self, comparator: V)
        ensures
            final(self).experiment().publisher == old(
                self,
            ).experiment().publisher,
            final(self)@ == (Setup { comparator: Some(comparator), ..old(self)@ }),
    {
        self.experiment.comparator(comparator)
    }

    /// A block which compares two experimental errors.
    pub fn error_comparator(&mut self, comparator: E)
        ensures
            final(self).experiment().publisher == old(
                self,
            ).experiment().publisher,
            final(self)@ == (Setup { error_comparator: Some(comparator), ..old(self)@ }),
    {
        self.experiment.error_comparator(comparator)
    }

    /// Hands the results of later runs to `publisher`: it takes the place of
    /// the publisher that the experiment held, and nothing else changes.
    pub fn result_publisher<T: Publisher<R> + 'a>(&mut self, publisher: T)
        ensures
            final(self).experiment().publisher == crate::result_publisher::boxed_publisher::<
                R,
                T,
            >(publisher),
            final(self)@ == old(self)@,
    {
        self.experiment.result_publisher(publisher)
    }

    /// See [`Experiment::ignore_mismatch_observation`].
    pub fn ignore_mismatch_observation(
        &self,
        control: &Observation<R>,
        candidate: &Observation<R>,
    ) -> (ignore: bool)
        requires
            self.ready(),
        ensures
            self@.ignore_verdict(*control, *candidate, ignore),
    {
        self.experiment.ignore_mismatch_observation(control, candidate)
    }

    /// See [`Experiment::observations_are_equivalent`].
    pub fn observations_are_equivalent(&self, a: &Observation<R>, b: &Observation<R>) -> (verdict:
        bool)
        requires
            self.ready(),
        ensures
            self@.equivalence(*a, *b, verdict),
    {
        self.experiment.observations_are_equivalent(a, b)
    }

    /// Run all the behaviors for this experiment, observing each and publishing the results.
    /// Return what the named candidate gave: its value, or its failure as a
    /// bad behavior.
    pub fn run(&self, name: &'static str) -> (out: VictorsResult<R>)
        requires
            self.ready(),
        ensures
            crate::registry::distinct_names(self@.registry),
            self@.may_return(name@, out),
    {
        self.experiment.internal_run(name)
    }
}

} // verus!
