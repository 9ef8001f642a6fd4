//! The failures an experiment can report.

use vstd::prelude::*;

verus! {

pub type VictorsResult<T> = Result<T, VictorsErrors>;

/// A behavior that could not be used as registered.
#[derive(Debug)]
pub struct BadBehavior {
    pub experiment: String,
    pub name: String,
    pub message: String,
}

/// A run was asked to return the value of a behavior that was never registered.
#[derive(Debug)]
pub struct BehaviorMissing {
    pub experiment_name: String,
    pub name: String,
}

/// A behavior was registered under a name that is already taken.
#[derive(Debug)]
pub struct BehaviorNotUnique {
    pub experiment_name: String,
    pub name: String,
}

/// The observations of a run disagreed and the experiment was told to fail on that.
#[derive(Debug)]
pub struct MismatchError {
    pub experiment_name: String,
    pub exception: Option<String>,
    pub message: String,
}

#[non_exhaustive]
#[derive(Debug)]
pub enum VictorsErrors {
    BadBehavior(BadBehavior),
    BehaviorMissing(BehaviorMissing),
    BehaviorNotUnique(BehaviorNotUnique),
    MismatchError(MismatchError),
    /// The named behavior did not produce a value.
    NoValue(String),
    /// A failure described only by its text.
    Msg(String),
}

/// What a [`VictorsErrors`] says, with every string taken as its characters.
pub enum Failure {
    BadBehavior { experiment: Seq<char>, name: Seq<char>, message: Seq<char> },
    BehaviorMissing { experiment_name: Seq<char>, name: Seq<char> },
    BehaviorNotUnique { experiment_name: Seq<char>, name: Seq<char> },
    Mismatch { experiment_name: Seq<char>, exception: Option<Seq<char>>, message: Seq<char> },
    NoValue { name: Seq<char> },
    Msg { text: Seq<char> },
}

impl View for VictorsErrors {
    type V = Failure;

    open spec fn view(&self) -> Failure {
        match self {
            VictorsErrors::BadBehavior(e) => Failure::BadBehavior {
                experiment: e.experiment@,
                name: e.name@,
                message: e.message@,
            },
            VictorsErrors::BehaviorMissing(e) => Failure::BehaviorMissing {
                experiment_name: e.experiment_name@,
                name: e.name@,
            },
            VictorsErrors::BehaviorNotUnique(e) => Failure::BehaviorNotUnique {
                experiment_name: e.experiment_name@,
                name: e.name@,
            },
            VictorsErrors::MismatchError(e) => Failure::Mismatch {
                experiment_name: e.experiment_name@,
                exception: match e.exception {
                    Some(x) => Some(x@),
                    None => None,
                },
                message: e.message@,
            },
            VictorsErrors::NoValue(name) => Failure::NoValue { name: name@ },
            VictorsErrors::Msg(text) => Failure::Msg { text: text@ },
        }
    }
}

impl Failure {
    /// The failure in words.
    pub open spec fn message(self) -> Seq<char> {
        match self {
            Failure::BadBehavior { name, .. } => name,
            Failure::BehaviorMissing { experiment_name, name } => experiment_name + " missing "@
                + name + " behavior"@,
            Failure::BehaviorNotUnique { experiment_name, name } => experiment_name
                + " already has "@ + name + " behavior"@,
            Failure::Mismatch { experiment_name, .. } => "experiment '"@ + experiment_name
                + "' observations mismatched"@,
            Failure::NoValue { name } => name + " didn't return a value"@,
            Failure::Msg { text } => text,
        }
    }

    /// Whether two failures count as the same one: they are of the same kind
    /// and agree on every string but the `exception` of a mismatch, which is
    /// left out of the comparison.
    pub open spec fn same_as(self, other: Failure) -> bool {
        match self {
            Failure::Mismatch { experiment_name, message, .. } => {
                &&& other matches Failure::Mismatch { experiment_name: theirs, message: text, .. }
                &&& experiment_name == theirs
                &&& message == text
            },
            _ => self == other,
        }
    }
}

impl VictorsErrors {
    /// The failure in words.
    pub fn message(&self) -> (text: String)
        ensures
            text@ == self@.message(),
    {
        match self {
            VictorsErrors::BadBehavior(e) => e.name.clone(),
            VictorsErrors::BehaviorMissing(e) => {
                let mut text = e.experiment_name.clone();
                text.append(" missing ");
                text.append(e.name.as_str());
                text.append(" behavior");
                text
            },
            VictorsErrors::BehaviorNotUnique(e) => {
                let mut text = e.experiment_name.clone();
                text.append(" already has ");
                text.append(e.name.as_str());
                text.append(" behavior");
                text
            },
            VictorsErrors::MismatchError(e) => {
                let mut text = "experiment '".to_owned();
                text.append(e.experiment_name.as_str());
                text.append("' observations mismatched");
                text
            },
            VictorsErrors::NoValue(name) => {
                let mut text = name.clone();
                text.append(" didn't return a value");
                text
            },
            VictorsErrors::Msg(text) => text.clone(),
        }
    }
}

impl PartialEq for VictorsErrors {
    fn eq(&self, other: &Self) -> (r: bool) {
        match (self, other) {
            (VictorsErrors::BadBehavior(a), VictorsErrors::BadBehavior(b)) => {
                a.experiment == b.experiment && a.name == b.name && a.message == b.message
            },
            (VictorsErrors::BehaviorMissing(a), VictorsErrors::BehaviorMissing(b)) => {
                a.experiment_name == b.experiment_name && a.name == b.name
            },
            (VictorsErrors::BehaviorNotUnique(a), VictorsErrors::BehaviorNotUnique(b)) => {
                a.experiment_name == b.experiment_name && a.name == b.name
            },
            (VictorsErrors::MismatchError(a), VictorsErrors::MismatchError(b)) => {
                a.experiment_name == b.experiment_name && a.message == b.message
            },
            (VictorsErrors::NoValue(a), VictorsErrors::NoValue(b)) => *a == *b,
            (VictorsErrors::Msg(a), VictorsErrors::Msg(b)) => *a == *b,
            _ => false,
        }
    }
}

impl vstd::std_specs::cmp::PartialEqSpecImpl for VictorsErrors {
    open spec fn obeys_eq_spec() -> bool {
        true
    }

    open spec fn eq_spec(&self, other: &Self) -> bool {
        self@.same_as(other@)
    }
}

} // verus!
