//! What happened when one behavior of an experiment was executed.

use vstd::prelude::*;

verus! {

/// The record of one execution of one behavior. It is filled in once, when
/// the behavior has returned, and not changed afterwards.
///
/// A behavior either returns a value or fails. The observation of one that
/// returned holds the value and no error; the observation of one that failed
/// holds the error and no value.
#[derive(PartialEq)]
pub struct Observation<R: Clone + PartialEq> {
    /// The experiment this observation is for.
    pub experiment_name: String,
    /// The name the behavior was registered under.
    pub name: String,
    /// What the behavior returned; `None` where it failed.
    pub value: Option<R>,
    /// The value as it should be published; `None` where the experiment has
    /// no cleaner, and where the behavior failed.
    pub cleaned_value: Option<R>,
    /// The failure that was captured in place of a value, if any.
    pub error: Option<String>,
    /// How long the call took, in milliseconds.
    pub duration: u128,
}

impl<R: Clone + PartialEq> Observation<R> {
    /// An observation of a behavior that returned `value` without failing.
    pub fn new(
        name: String,
        experiment_name: String,
        value: R,
        cleaned_value: Option<R>,
        duration: u128,
    ) -> (observation: Self)
        ensures
            observation.name == name,
            observation.experiment_name == experiment_name,
            observation.value == Some(value),
            observation.cleaned_value == cleaned_value,
            observation.error is None,
            observation.duration == duration,
    {
        Self { experiment_name, name, value: Some(value), cleaned_value, error: None, duration }
    }

    /// An observation of a behavior that failed with `error`.
    pub fn failed(
        name: String,
        experiment_name: String,
        error: String,
        duration: u128,
    ) -> (observation: Self)
        ensures
            observation.name == name,
            observation.experiment_name == experiment_name,
            observation.value is None,
            observation.cleaned_value is None,
            observation.error == Some(error),
            observation.duration == duration,
    {
        Self {
            experiment_name,
            name,
            value: None,
            cleaned_value: None,
            error: Some(error),
            duration,
        }
    }

    /// The cleaned value, where the experiment had a cleaner.
    pub fn clean_value(&self) -> (cleaned: Option<&R>)
        ensures
            cleaned == match self.cleaned_value {
                Some(value) => Some(&value),
                None => None,
            },
    {
        self.cleaned_value.as_ref()
    }

    /// Whether `verdict` is an answer that comparing `self` with `other` may give.
    ///
    /// Two observations that both failed are compared by their errors: by
    /// `error_comparator` where there is one, by the errors' text otherwise.
    /// Two that both hold a value are compared by their values: by
    /// `comparator` where there is one, by `==` otherwise. One that failed
    /// is never equivalent to one that did not. Of two that hold neither an
    /// error nor a value, nothing tells one from the other.
    pub open spec fn equivalence<V, E>(
        &self,
        other: &Observation<R>,
        comparator: Option<&V>,
        error_comparator: Option<&E>,
        verdict: bool,
    ) -> bool where V: Fn(&R, &R) -> bool, E: Fn(&String, &String) -> bool {
        match (self.error, other.error) {
            (Some(mine), Some(theirs)) => match error_comparator {
                Some(judge) => call_ensures(*judge, (&mine, &theirs), verdict),
                None => verdict == (mine@ == theirs@),
            },
            (None, None) => match (self.value, other.value) {
                (Some(mine), Some(theirs)) => match comparator {
                    Some(judge) => call_ensures(*judge, (&mine, &theirs), verdict),
                    None => call_ensures(R::eq, (&mine, &theirs), verdict),
                },
                (None, None) => verdict,
                _ => !verdict,
            },
            _ => !verdict,
        }
    }

    /// Whether the two hooks may be called on this pair of observations.
    pub open spec fn comparable<V, E>(
        &self,
        other: &Observation<R>,
        comparator: Option<&V>,
        error_comparator: Option<&E>,
    ) -> bool where V: Fn(&R, &R) -> bool, E: Fn(&String, &String) -> bool {
        match (self.error, other.error) {
            (Some(mine), Some(theirs)) => error_comparator matches Some(judge) ==> call_requires(
                *judge,
                (&mine, &theirs),
            ),
            (None, None) => match (self.value, other.value) {
                (Some(mine), Some(theirs)) => comparator matches Some(judge) ==> call_requires(
                    *judge,
                    (&mine, &theirs),
                ),
                _ => true,
            },
            _ => true,
        }
    }

    /// Is this observation equivalent to another?
    pub fn equivalent_to<V, E>(
        &self,
        other: &Observation<R>,
        comparator: Option<&V>,
        error_comparator: Option<&E>,
    ) -> (verdict: bool) where V: Fn(&R, &R) -> bool, E: Fn(&String, &String) -> bool
        requires
            self.comparable(other, comparator, error_comparator),
        ensures
            self.equivalence(other, comparator, error_comparator, verdict),
    {
        match (&self.error, &other.error) {
            (Some(mine), Some(theirs)) => match error_comparator {
                Some(judge) => judge(mine, theirs),
                None => *mine == *theirs,
            },
            (None, None) => match (&self.value, &other.value) {
                (Some(mine), Some(theirs)) => match comparator {
                    Some(judge) => judge(mine, theirs),
                    None => *mine == *theirs,
                },
                (None, None) => true,
                _ => false,
            },
            _ => false,
        }
    }
}

impl<R: Clone + PartialEq> Clone for Observation<R> {
    /// A copy with the same names, error and duration, and with clones of
    /// the value and of the cleaned value.
    fn clone(&self) -> (copy: Self)
        ensures
            copy.experiment_name == self.experiment_name,
            copy.name == self.name,
            match (self.value, copy.value) {
                (Some(mine), Some(theirs)) => cloned(mine, theirs),
                (None, None) => true,
                _ => false,
            },
            match (self.cleaned_value, copy.cleaned_value) {
                (Some(mine), Some(theirs)) => cloned(mine, theirs),
                (None, None) => true,
                _ => false,
            },
            copy.error == self.error,
            copy.duration == self.duration,
    {
        Observation {
            experiment_name: self.experiment_name.clone(),
            name: self.name.clone(),
            value: match &self.value {
                Some(value) => Some(value.clone()),
                None => None,
            },
            cleaned_value: match &self.cleaned_value {
                Some(cleaned) => Some(cleaned.clone()),
                None => None,
            },
            error: match &self.error {
                Some(error) => Some(error.clone()),
                None => None,
            },
            duration: self.duration,
        }
    }
}

} // verus!
