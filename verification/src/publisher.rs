//! The sink that an experiment reports to.

use vstd::prelude::*;
use crate::outcome::ExperimentResult;

verus! {

/// Receives the results of experiments, and decides whether experiments run
/// and whether two outputs match.
///
/// The trait asks nothing of an implementation: every method may answer as it
/// likes and change the publisher as it likes. What an experiment does to a
/// publisher is therefore stated through whatever the implementation's own
/// methods ensure.
pub trait Publisher<P, Cr: Clone, Nr: Clone>: Sized {
    /// Publish the result of an experiment.
    fn publish(&mut self, result: ExperimentResult<Cr, Nr>);

    /// Comparison function for the results of the subjects.
    ///
    /// Returns `true` if the results match, and `false` if they do not.
    fn compare(&mut self, current_result: &Cr, new_result: &Nr) -> bool;

    /// Only run the experiment in some cases.
    ///
    /// If `enabled` returns false, the result of the current subject is used and
    /// nothing is published. It is asked once for every experiment that is carried
    /// out, so it is meant to be inexpensive. Unless an implementation overrides
    /// it, experiments are enabled and asking changes nothing.
    fn enabled(&mut self) -> (on: bool)
        default_ensures
            on,
            *final(self) == *old(self),
    {
        true
    }
}

} // verus!
