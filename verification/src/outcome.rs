//! What one trial produces: the outcome of each path and how the two compare.

use vstd::prelude::*;

verus! {

/// How the outputs of the two paths relate in one trial.
#[derive(Debug, PartialEq, Eq, Clone, Copy, Structural)]
pub enum MatchType {
    /// The publisher judged the two outputs to match.
    Match,
    /// The publisher judged the two outputs to differ.
    NoMatch,
    /// The comparison was set aside for this parameter.
    Ignored,
}

impl MatchType {
    /// The classification of a trial: `Ignored` whenever the trial is ignored,
    /// whatever the comparison says; otherwise `Match` or `NoMatch` by the comparison.
    pub open spec fn classification(ignored: bool, matched: bool) -> MatchType {
        if ignored {
            MatchType::Ignored
        } else if matched {
            MatchType::Match
        } else {
            MatchType::NoMatch
        }
    }

    /// Classifies a trial from the verdict of the ignore hook and of the comparison.
    pub fn classify(ignored: bool, matched: bool) -> (match_type: MatchType)
        ensures
            match_type == Self::classification(ignored, matched),
    {
        if ignored {
            MatchType::Ignored
        } else if matched {
            MatchType::Match
        } else {
            MatchType::NoMatch
        }
    }
}

/// The outcome of running one path once.
#[derive(Debug)]
pub struct SubjectResult<T: Clone> {
    /// Time spent in the path's operation, in nanoseconds.
    pub duration: u64,
    /// The value the operation produced.
    pub result: T,
}

impl<T: Clone> SubjectResult<T> {
    /// Records a duration together with a clone of `result`.
    pub fn new(duration: u64, result: &T) -> (subject: Self)
        ensures
            subject.duration == duration,
            cloned(*result, subject.result),
    {
        SubjectResult { duration: duration, result: result.clone() }
    }
}

/// The record of one completed trial, as handed to the publisher.
#[derive(Debug)]
pub struct ExperimentResult<Cr: Clone, Nr: Clone> {
    /// Name of the experiment that ran the trial.
    pub name: &'static str,
    /// Outcome of the current path.
    pub current: SubjectResult<Cr>,
    /// Outcome of the new path.
    pub new: SubjectResult<Nr>,
    /// How the two outputs compare.
    pub match_type: MatchType,
}

impl<Cr: Clone, Nr: Clone> ExperimentResult<Cr, Nr> {
    /// Assembles the record of a trial from its four parts.
    pub fn new(
        name: &'static str,
        current: SubjectResult<Cr>,
        new: SubjectResult<Nr>,
        match_type: MatchType,
    ) -> (result: Self)
        ensures
            result == (ExperimentResult { name, current, new, match_type }),
    {
        ExperimentResult { name: name, current: current, new: new, match_type: match_type }
    }
}

} // verus!
