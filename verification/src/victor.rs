//! Making, setting up and running an experiment in one call.

use crate::errors::VictorsResult;
use crate::experiment::{Experiment, UncontrolledExperiment, CONTROL_NAME};
use crate::observation::Observation;
use crate::result_publisher::{NoopPublisher, Publisher};
use vstd::prelude::*;

verus! {

/// Whoever conducts experiments: it says where their results are published.
pub trait Scientist<'a, R: Clone + PartialEq> {
    type P: Publisher<R> + 'a;

    /// Define and run a controlled experiment.
    ///
    /// Makes an experiment called `name` that publishes to what
    /// [`Scientist::get_publisher`] gives, hands it to `experiment_block` to
    /// be set up, and runs what comes back. Where the block fails, so does
    /// the call, with the block's failure.
    fn conduct<B, G, H, C, I, V, E, F>(name: &'static str, experiment_block: F) -> (out:
        VictorsResult<R>) where
        B: Fn() -> Result<R, String>,
        G: Fn() -> bool,
        H: Fn(),
        C: Fn(&R) -> R,
        I: Fn(&Observation<R>, &Observation<R>) -> bool,
        V: Fn(&R, &R) -> bool,
        E: Fn(&String, &String) -> bool,
        F: FnOnce(Experiment<'a, R, B, G, H, C, I, V, E>) -> VictorsResult<
            Experiment<'a, R, B, G, H, C, I, V, E>,
        >,

        requires
            forall|fresh: Experiment<'a, R, B, G, H, C, I, V, E>|
                fresh@ == crate::experiment::Setup::<B, G, H, C, I, V, E>::fresh(
                    name@,
                    Map::empty(),
                ) ==> call_requires(experiment_block, (fresh,)),
            forall|
                fresh: Experiment<'a, R, B, G, H, C, I, V, E>,
                set_up: Experiment<'a, R, B, G, H, C, I, V, E>,
            | #[trigger]
                call_ensures(experiment_block, (fresh,), Ok(set_up)) ==> set_up.ready(),
        ensures
            exists|
                fresh: Experiment<'a, R, B, G, H, C, I, V, E>,
                made: VictorsResult<Experiment<'a, R, B, G, H, C, I, V, E>>,
            |
                {
                    &&& fresh@ == crate::experiment::Setup::<B, G, H, C, I, V, E>::fresh(
                        name@,
                        Map::empty(),
                    )
                    &&& exists|publisher: Self::P|
                        call_ensures(Self::get_publisher, (), publisher) && fresh.publisher
                            == crate::result_publisher::boxed_publisher::<R, Self::P>(publisher)
                    &&& #[trigger] call_ensures(experiment_block, (fresh,), made)
                    &&& match made {
                        Ok(set_up) => set_up@.may_return(CONTROL_NAME@, out),
                        Err(e) => out == Err::<R, crate::errors::VictorsErrors>(e),
                    }
                },
    {
        let mut experiment = Experiment::new(name);
        experiment.result_publisher(Self::get_publisher());
        match experiment_block(experiment) {
            Ok(set_up) => set_up.run(),
            Err(e) => Err(e),
        }
    }

    /// Define and run an uncontrolled experiment.
    /// Uncontrolled experiments contain only candidates and do not have a control.
    ///
    /// Makes an experiment called `name` that publishes to
    /// [`Scientist::get_publisher`], hands it to `experiment_block` to be set
    /// up, and runs what comes back for the value of the candidate called
    /// `return_candidate_result`. Where the block fails, so does the call,
    /// with the block's failure.
    fn conduct_uncontrolled<B, G, H, C, I, V, E, F>(
        name: &'static str,
        return_candidate_result: &'static str,
        experiment_block: F,
    ) -> (out: VictorsResult<R>) where
        B: Fn() -> Result<R, String>,
        G: Fn() -> bool,
        H: Fn(),
        C: Fn(&R) -> R,
        I: Fn(&Observation<R>, &Observation<R>) -> bool,
        V: Fn(&R, &R) -> bool,
        E: Fn(&String, &String) -> bool,
        F: FnOnce(UncontrolledExperiment<'a, R, B, G, H, C, I, V, E>) -> VictorsResult<
            UncontrolledExperiment<'a, R, B, G, H, C, I, V, E>,
        >,

        requires
            forall|fresh: UncontrolledExperiment<'a, R, B, G, H, C, I, V, E>|
                fresh@ == crate::experiment::Setup::<B, G, H, C, I, V, E>::fresh(
                    name@,
                    Map::empty(),
                ) ==> call_requires(experiment_block, (fresh,)),
            forall|
                fresh: UncontrolledExperiment<'a, R, B, G, H, C, I, V, E>,
                set_up: UncontrolledExperiment<'a, R, B, G, H, C, I, V, E>,
            | #[trigger]
                call_ensures(experiment_block, (fresh,), Ok(set_up)) ==> set_up.ready(),
        ensures
            exists|
                fresh: UncontrolledExperiment<'a, R, B, G, H, C, I, V, E>,
                made: VictorsResult<UncontrolledExperiment<'a, R, B, G, H, C, I, V, E>>,
            |
                {
                    &&& fresh@ == crate::experiment::Setup::<B, G, H, C, I, V, E>::fresh(
                        name@,
                        Map::empty(),
                    )
                    &&& exists|publisher: Self::P|
                        call_ensures(Self::get_publisher, (), publisher)
                            && fresh.experiment().publisher
                            == crate::result_publisher::boxed_publisher::<R, Self::P>(publisher)
                    &&& #[trigger] call_ensures(experiment_block, (fresh,), made)
                    &&& match made {
                        Ok(set_up) => set_up@.may_return(return_candidate_result@, out),
                        Err(e) => out == Err::<R, crate::errors::VictorsErrors>(e),
                    }
                },
    {
        let mut experiment = UncontrolledExperiment::new(name);
        experiment.result_publisher(Self::get_publisher());
        match experiment_block(experiment) {
            Ok(set_up) => set_up.run(return_candidate_result),
            Err(e) => Err(e),
        }
    }

    /// Where the results of the experiments go.
    fn get_publisher() -> Self::P;
}

/// The scientist that publishes nowhere.
pub struct Victor;

impl<'a, R: Clone + PartialEq> Scientist<'a, R> for Victor {
    type P = NoopPublisher;

    fn get_publisher() -> NoopPublisher {
        NoopPublisher {  }
    }
}

} // verus!
