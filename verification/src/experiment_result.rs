//! The outcome of one run of an experiment.

use crate::context::Context;
use crate::experiment::Experiment;
use crate::observation::Observation;
use serde_json::Value;
use vstd::prelude::*;

verus! {

/// How one observation compares with the primary one.
pub enum Verdict {
    /// The two are equivalent.
    Matched,
    /// The two differ.
    Mismatched,
    /// The two differ, but an ignore predicate said to disregard it.
    Ignored,
}

/// The places of a result as mathematical integers.
pub open spec fn places(indexes: Seq<usize>) -> Seq<int> {
    indexes.map_values(|i: usize| i as int)
}

/// What an [`ExperimentResult`] holds, as plain mathematics.
#[verifier::ext_equal]
pub struct Outcome<R: Clone + PartialEq> {
    pub experiment_name: Seq<char>,
    /// The observations, in the order in which the behaviors were executed.
    pub observations: Seq<Observation<R>>,
    pub context: Map<Seq<char>, Value>,
    /// Where in `observations` the primary behavior stands.
    pub primary: int,
    /// Where the observations stand that differ from the primary one.
    pub mismatched: Seq<int>,
    /// Where the observations stand that differ from the primary one, but in
    /// a way that the experiment was told to ignore.
    pub ignored: Seq<int>,
}

/// Whether `positions` are places in a sequence of length `len`, in rising
/// order, none of them `primary`.
pub open spec fn rising_places(positions: Seq<int>, len: int, primary: int) -> bool {
    &&& forall|k: int| 0 <= k < positions.len() ==> 0 <= #[trigger] positions[k] < len
    &&& forall|k: int| 0 <= k < positions.len() ==> #[trigger] positions[k] != primary
    &&& forall|j: int, k: int|
        0 <= j < k < positions.len() ==> #[trigger] positions[j] < #[trigger] positions[k]
}

impl<R: Clone + PartialEq> Outcome<R> {
    /// The primary observation is one of the observations; the two lists of
    /// places are in rising order, name no place twice, share none, and
    /// leave the primary observation out.
    pub open spec fn wf(self) -> bool {
        &&& 0 <= self.primary < self.observations.len()
        &&& rising_places(self.mismatched, self.observations.len() as int, self.primary)
        &&& rising_places(self.ignored, self.observations.len() as int, self.primary)
        &&& forall|i: int| !(self.mismatched.contains(i) && self.ignored.contains(i))
    }

    /// The observation of the primary behavior.
    pub open spec fn control(self) -> Observation<R> {
        self.observations[self.primary]
    }

    /// Whether every behavior agreed with the primary one.
    pub open spec fn matched(self) -> bool {
        self.mismatched.len() == 0 && self.ignored.len() == 0
    }

    /// How the result has the observation at `i` compare with the primary one.
    pub open spec fn verdict(self, i: int) -> Verdict {
        verdict_of(self.mismatched, self.ignored, i)
    }
}

/// The immutable result of running an experiment.
#[derive(PartialEq)]
pub struct ExperimentResult<R: Clone + PartialEq> {
    experiment_name: String,
    observations: Vec<Observation<R>>,
    context: Context,
    control_index: usize,
    mismatched_indexes: Vec<usize>,
    ignored_indexes: Vec<usize>,
}

impl<R: Clone + PartialEq> View for ExperimentResult<R> {
    type V = Outcome<R>;

    closed spec fn view(&self) -> Outcome<R> {
        Outcome {
            experiment_name: self.experiment_name@,
            observations: self.observations@,
            context: self.context@,
            primary: self.control_index as int,
            mismatched: places(self.mismatched_indexes@),
            ignored: places(self.ignored_indexes@),
        }
    }
}

impl<R: Clone + PartialEq> ExperimentResult<R> {
    #[verifier::type_invariant]
    spec fn is_well_formed(self) -> bool {
        self@.wf()
    }

    /// Create a new experiment result: the observations as they are, the
    /// name and the context of the experiment as they are now, and every
    /// observation but the primary one compared with the primary one.
    pub fn new<B, G, H, C, I, V, E>(
        experiment: &Experiment<'_, R, B, G, H, C, I, V, E>,
        observations: Vec<Observation<R>>,
        control_index: usize,
    ) -> (result: Self) where
        B: Fn() -> Result<R, String>,
        G: Fn() -> bool,
        H: Fn(),
        C: Fn(&R) -> R,
        I: Fn(&Observation<R>, &Observation<R>) -> bool,
        V: Fn(&R, &R) -> bool,
        E: Fn(&String, &String) -> bool,

        requires
            experiment.ready(),
            control_index < observations.len(),
        ensures
            result@.experiment_name == experiment@.name,
            result@.observations == observations@,
            result@.context == experiment@.context,
            result@.primary == control_index,
            result@.wf(),
            experiment@.judged(result@),
    {
        let (mismatched_indexes, ignored_indexes) = Self::evaluate_candidates(
            experiment,
            &observations,
            control_index,
        );
        Self {
            experiment_name: experiment.name.clone(),
            observations,
            context: experiment.context.clone(),
            control_index,
            mismatched_indexes,
            ignored_indexes,
        }
    }

    /// Evaluate the candidates to find mismatched and ignored results.
    fn evaluate_candidates<B, G, H, C, I, V, E>(
        experiment: &Experiment<'_, R, B, G, H, C, I, V, E>,
        observations: &Vec<Observation<R>>,
        control_index: usize,
    ) -> (found: (Vec<usize>, Vec<usize>)) where
        B: Fn() -> Result<R, String>,
        G: Fn() -> bool,
        H: Fn(),
        C: Fn(&R) -> R,
        I: Fn(&Observation<R>, &Observation<R>) -> bool,
        V: Fn(&R, &R) -> bool,
        E: Fn(&String, &String) -> bool,

        requires
            experiment.ready(),
            control_index < observations.len(),
        ensures
            ({
                let outcome = Outcome {
                    experiment_name: experiment@.name,
                    observations: observations@,
                    context: experiment@.context,
                    primary: control_index as int,
                    mismatched: places(found.0@),
                    ignored: places(found.1@),
                };
                outcome.wf() && experiment@.judged(outcome)
            }),
    {
        let mut mismatched: Vec<usize> = Vec::new();
        let mut ignored: Vec<usize> = Vec::new();
        let control = &observations[control_index];
        let mut i: usize = 0;
        while i < observations.len()
            invariant
                experiment.ready(),
                control_index < observations.len(),
                *control == observations@[control_index as int],
                i <= observations.len(),
                rising_places(places(mismatched@), i as int, control_index as int),
                rising_places(places(ignored@), i as int, control_index as int),
                forall|p: int| !(places(mismatched@).contains(p) && places(ignored@).contains(p)),
                forall|p: int|
                    0 <= p < i && p != control_index ==> experiment@.may_judge(
                        observations@[control_index as int],
                        observations@[p],
                        #[trigger] verdict_of(places(mismatched@), places(ignored@), p),
                    ),
            decreases observations.len() - i,
        {
            let ghost before_m = places(mismatched@);
            let ghost before_i = places(ignored@);
            if i != control_index {
                let observation = &observations[i];
                if !experiment.observations_are_equivalent(control, observation) {
                    if experiment.ignore_mismatch_observation(control, observation) {
                        ignored.push(i);
                        proof {
                            assert(places(ignored@) =~= before_i.push(i as int));
                        }
                    } else {
                        mismatched.push(i);
                        proof {
                            assert(places(mismatched@) =~= before_m.push(i as int));
                        }
                    }
                }
            }
            proof {
                let after_m = places(mismatched@);
                let after_i = places(ignored@);
                assert forall|p: int| 0 <= p < i implies {
                    &&& after_m.contains(p) <==> before_m.contains(p)
                    &&& after_i.contains(p) <==> before_i.contains(p)
                } by {
                    lemma_pushed_place(before_m, after_m, i as int, p);
                    lemma_pushed_place(before_i, after_i, i as int, p);
                }
                assert forall|p: int| !(after_m.contains(p) && after_i.contains(p)) by {
                    lemma_pushed_place(before_m, after_m, i as int, p);
                    lemma_pushed_place(before_i, after_i, i as int, p);
                }
                assert forall|p: int|
                    0 <= p < i + 1 && p != control_index implies experiment@.may_judge(
                    observations@[control_index as int],
                    observations@[p],
                    #[trigger] verdict_of(after_m, after_i, p),
                ) by {
                    lemma_pushed_place(before_m, after_m, i as int, p);
                    lemma_pushed_place(before_i, after_i, i as int, p);
                    if p < i {
                        assert(verdict_of(after_m, after_i, p) == verdict_of(
                            before_m,
                            before_i,
                            p,
                        ));
                    }
                }
            }
            i += 1;
        }
        (mismatched, ignored)
    }

    /// Returns experiment name corresponding to the results.
    pub fn experiment_name(&self) -> (name: &String)
        ensures
            name@ == self@.experiment_name,
    {
        &self.experiment_name
    }

    /// Returns the observation of the primary behavior.
    pub fn control(&self) -> (observation: Option<&Observation<R>>)
        ensures
            self@.wf(),
            observation == Some(&self@.control()),
    {
        proof {
            use_type_invariant(self);
        }
        Some(&self.observations[self.control_index])
    }

    /// Returns all observations, in the order in which the behaviors were executed.
    pub fn observations(&self) -> (observations: &Vec<Observation<R>>)
        ensures
            observations@ == self@.observations,
    {
        &self.observations
    }

    /// Returns where among the observations the primary one stands.
    pub fn control_index(&self) -> (at: usize)
        ensures
            self@.wf(),
            at == self@.primary,
    {
        proof {
            use_type_invariant(self);
        }
        self.control_index
    }

    /// Returns where among the observations the mismatched ones stand, in rising order.
    pub fn mismatched_indexes(&self) -> (at: &Vec<usize>)
        ensures
            self@.wf(),
            places(at@) == self@.mismatched,
    {
        proof {
            use_type_invariant(self);
        }
        &self.mismatched_indexes
    }

    /// Returns where among the observations the ignored ones stand, in rising order.
    pub fn ignored_indexes(&self) -> (at: &Vec<usize>)
        ensures
            self@.wf(),
            places(at@) == self@.ignored,
    {
        proof {
            use_type_invariant(self);
        }
        &self.ignored_indexes
    }

    /// Returns reference to the experiment context.
    pub fn context(&self) -> (context: &Context)
        ensures
            context@ == self@.context,
    {
        &self.context
    }

    /// Returns whether every behavior agreed with the primary one.
    pub fn matched(&self) -> (all: bool)
        ensures
            all == self@.matched(),
    {
        self.mismatched_indexes.is_empty() && !self.has_ignores()
    }

    /// Returns whether some behavior differed from the primary one in a way that was not ignored.
    pub fn has_mismatches(&self) -> (some: bool)
        ensures
            some == (self@.mismatched.len() > 0),
    {
        !self.mismatched_indexes.is_empty()
    }

    /// Returns whether some difference from the primary behavior was ignored.
    pub fn has_ignores(&self) -> (some: bool)
        ensures
            some == (self@.ignored.len() > 0),
    {
        !self.ignored_indexes.is_empty()
    }

    /// Return mismatched observations, in the order in which they were made.
    pub fn mismatched(&self) -> (found: Vec<&Observation<R>>)
        ensures
            self@.wf(),
            found@.len() == self@.mismatched.len(),
            forall|k: int|
                0 <= k < found@.len() ==> *#[trigger] found@[k]
                    == self@.observations[self@.mismatched[k]],
    {
        proof {
            use_type_invariant(self);
            assert forall|k: int| 0 <= k < self.mismatched_indexes@.len() implies (
            #[trigger] self.mismatched_indexes@[k]) < self.observations@.len() by {
                assert(self@.mismatched[k] == self.mismatched_indexes@[k]);
            }
        }
        Self::pick(&self.observations, &self.mismatched_indexes)
    }

    /// Return ignored observations, in the order in which they were made.
    pub fn ignored(&self) -> (found: Vec<&Observation<R>>)
        ensures
            self@.wf(),
            found@.len() == self@.ignored.len(),
            forall|k: int|
                0 <= k < found@.len() ==> *#[trigger] found@[k]
                    == self@.observations[self@.ignored[k]],
    {
        proof {
            use_type_invariant(self);
            assert forall|k: int| 0 <= k < self.ignored_indexes@.len() implies (
            #[trigger] self.ignored_indexes@[k]) < self.observations@.len() by {
                assert(self@.ignored[k] == self.ignored_indexes@[k]);
            }
        }
        Self::pick(&self.observations, &self.ignored_indexes)
    }

    /// The observations at the given places.
    fn pick<'b>(observations: &'b Vec<Observation<R>>, indexes: &Vec<usize>) -> (found: Vec<
        &'b Observation<R>,
    >)
        requires
            forall|k: int| 0 <= k < indexes@.len() ==> #[trigger] indexes@[k] < observations@.len(),
        ensures
            found@.len() == indexes@.len(),
            forall|k: int|
                0 <= k < found@.len() ==> *#[trigger] found@[k]
                    == observations@[indexes@[k] as int],
    {
        let mut found: Vec<&'b Observation<R>> = Vec::new();
        let mut k: usize = 0;
        while k < indexes.len()
            invariant
                k <= indexes@.len(),
                found@.len() == k,
                forall|j: int|
                    0 <= j < indexes@.len() ==> #[trigger] indexes@[j] < observations@.len(),
                forall|j: int|
                    0 <= j < k ==> *#[trigger] found@[j] == observations@[indexes@[j] as int],
            decreases indexes@.len() - k,
        {
            found.push(&observations[indexes[k]]);
            k += 1;
        }
        found
    }

    /// Gives up the result for the observation of the primary behavior.
    pub fn into_control(self) -> (observation: Observation<R>)
        ensures
            self@.wf(),
            observation == self@.control(),
    {
        proof {
            use_type_invariant(&self);
        }
        let mut observations = self.observations;
        observations.swap_remove(self.control_index)
    }
}

impl<R: Clone + PartialEq> Clone for ExperimentResult<R> {
    /// A copy that holds the same name, context and places, and a clone of
    /// each observation in the place of the observation.
    fn clone(&self) -> (copy: Self)
        ensures
            copy@.experiment_name == self@.experiment_name,
            copy@.context == self@.context,
            copy@.primary == self@.primary,
            copy@.mismatched == self@.mismatched,
            copy@.ignored == self@.ignored,
            copy@.observations.len() == self@.observations.len(),
            forall|k: int|
                0 <= k < self@.observations.len() ==> cloned(
                    self@.observations[k],
                    #[trigger] copy@.observations[k],
                ),
    {
        proof {
            use_type_invariant(self);
        }
        let observations = self.observations.clone();
        let mismatched_indexes = self.mismatched_indexes.clone();
        let ignored_indexes = self.ignored_indexes.clone();
        proof {
            assert(mismatched_indexes@ =~= self.mismatched_indexes@);
            assert(ignored_indexes@ =~= self.ignored_indexes@);
        }
        ExperimentResult {
            experiment_name: self.experiment_name.clone(),
            observations,
            context: self.context.clone(),
            control_index: self.control_index,
            mismatched_indexes,
            ignored_indexes,
        }
    }
}

/// How two lists of places have the observation at `i` compare with the primary one.
pub open spec fn verdict_of(mismatched: Seq<int>, ignored: Seq<int>, i: int) -> Verdict {
    if mismatched.contains(i) {
        Verdict::Mismatched
    } else if ignored.contains(i) {
        Verdict::Ignored
    } else {
        Verdict::Matched
    }
}

/// A list that is the same as before, or has `place` added at its end, holds
/// what it held before, and `place` where that was added.
proof fn lemma_pushed_place(before: Seq<int>, after: Seq<int>, place: int, p: int)
    requires
        after == before || after == before.push(place),
    ensures
        after.contains(p) ==> before.contains(p) || p == place,
        before.contains(p) ==> after.contains(p),
        after == before.push(place) ==> after.contains(place),
{
    if after.contains(p) {
        let k = choose|k: int| 0 <= k < after.len() && after[k] == p;
        assert(k < before.len() ==> before[k] == p);
    }
    if before.contains(p) {
        let k = choose|k: int| 0 <= k < before.len() && before[k] == p;
        assert(after[k] == p);
    }
    if after == before.push(place) {
        assert(after[before.len() as int] == place);
    }
}

} // verus!
