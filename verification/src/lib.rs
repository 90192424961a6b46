//! Run a trusted code path and a candidate side by side, compare what they
//! produce, and report the comparison without letting the candidate affect
//! the caller.
//!
//! An [`Experiment`] is built from a current and a new subject, and may be given
//! a setup step, a run gate and an ignore hook. Carrying it out on a parameter
//! hands back what the current subject computed and, unless the trial was
//! skipped, hands one [`ExperimentResult`] to a [`Publisher`].
//!
//! The contracts speak of an experiment through its view, in `model`, and the
//! laws that follow from them are proved in `laws`.

pub mod callable;
pub mod clock;
pub mod experiment;
pub mod laws;
pub mod model;
pub mod order;
pub mod outcome;
pub mod publisher;
pub mod text;

pub use experiment::Experiment;
pub use outcome::ExperimentResult;
pub use outcome::MatchType;
pub use outcome::SubjectResult;
pub use publisher::Publisher;
