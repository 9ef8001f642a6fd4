//! Where the result of a run is handed to.

use crate::experiment_result::ExperimentResult;
use std::marker::PhantomData;
use vstd::prelude::*;

verus! {

/// Receives the result of every run that compared behaviors.
pub trait Publisher<R: Clone + PartialEq> {
    fn publish(&self, result: &ExperimentResult<R>);
}

/// The publisher `publisher` as an experiment holds it: boxed, and seen as
/// a publisher only.
pub open spec fn boxed_publisher<'a, R: Clone + PartialEq, T: Publisher<R> + 'a>(
    publisher: T,
) -> Box<dyn Publisher<R> + 'a> {
    Box::new(publisher)
}

/// Drops every result.
pub struct NoopPublisher;

impl<R: Clone + PartialEq> Publisher<R> for NoopPublisher {
    fn publish(&self, _result: &ExperimentResult<R>) {
    }
}

/// Hands every result to a callback.
#[verifier::reject_recursive_types(R)]
pub struct InMemoryPublisher<R: Clone + PartialEq, CB: Fn(&ExperimentResult<R>)> {
    cb: CB,
    results: PhantomData<R>,
}

impl<R: Clone + PartialEq, CB: Fn(&ExperimentResult<R>)> InMemoryPublisher<R, CB> {
    #[verifier::type_invariant]
    spec fn takes_every_result(self) -> bool {
        forall|result: &ExperimentResult<R>| #[trigger] call_requires(self.cb, (result,))
    }

    /// The callback that the results are handed to.
    pub closed spec fn callback(&self) -> CB {
        self.cb
    }

    /// A publisher that hands every result to `block`, which has to take any result.
    pub fn new(block: CB) -> (publisher: Self)
        requires
            forall|result: &ExperimentResult<R>| #[trigger] call_requires(block, (result,)),
        ensures
            publisher.callback() == block,
    {
        Self { cb: block, results: PhantomData }
    }
}

impl<R: Clone + PartialEq, CB: Fn(&ExperimentResult<R>)> Publisher<R> for InMemoryPublisher<
    R,
    CB,
> {
    /// Calls the callback on `result`.
    fn publish(&self, result: &ExperimentResult<R>)
        ensures
            call_ensures(self.callback(), (result,), ()),
    {
        proof {
            use_type_invariant(self);
        }
        (self.cb)(result);
    }
}

} // verus!
