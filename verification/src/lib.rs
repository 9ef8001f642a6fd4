//! A harness for trying a rewritten code path next to the one it replaces.
//!
//! An experiment holds named behaviors that all produce the same kind of
//! value. Running it executes every behavior in an order that is shuffled
//! anew for each run, hands back the value of the primary behavior, and
//! records in a result which of the others agreed with it. The caller sees
//! what the primary behavior alone would have given; what the others did
//! goes to a publisher.
//!
//! # What is proved
//!
//! Every function of the library is verified against a contract. The
//! contracts speak of what an experiment is set up with and of what a result
//! holds as plain mathematics ([`experiment::Setup`],
//! [`experiment_result::Outcome`]). Behaviors and hooks are closures, of
//! which a contract knows no more than what they may return; so the contract
//! of a run says which values the run may return
//! ([`experiment::Setup::may_return`]), and [`laws`] draws from it what
//! holds of every run.
//!
//! # Decisions
//!
//! * A behavior returns `Ok` with its value or `Err` with its failure. A
//!   failure is recorded as the error of the behavior's observation and
//!   keeps no other behavior from being executed. Two failures are compared
//!   by their errors; a failure never matches a value.
//! * Where the primary behavior failed, the run hands the failure back to
//!   the caller: it fails as a bad behavior that names the experiment and
//!   the behavior and has the behavior's error as its message.
//! * An experiment that is to fail on mismatches fails where a candidate
//!   differs from the primary behavior and no ignore predicate covers the
//!   difference, whatever the primary behavior gave. Ignored differences
//!   keep a result from counting as matched, but do not make the run fail.
//! * The observation of the primary behavior is never listed as mismatched
//!   or ignored, whatever the comparator says of a value and itself.

pub mod context;
pub mod errors;
pub mod experiment;
pub mod experiment_result;
pub mod laws;
pub mod observation;
pub mod registry;
pub mod result_publisher;
pub mod victor;
