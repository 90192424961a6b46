//! What holds of every trial, whatever the subjects, the hooks and the
//! publisher are.

use vstd::prelude::*;
use crate::model::ExperimentView;
use crate::outcome::ExperimentResult;
use crate::outcome::MatchType;

verus! {

/// Ignoring overrides the comparison: a trial that is ignored is classified as
/// `Ignored`, never as `NoMatch` or `Match`, whatever the comparison says or
/// would have said.
pub proof fn lemma_ignored_overrides_comparison(matched: bool)
    ensures
        MatchType::classification(true, matched) == MatchType::Ignored,
{
}

/// A trial is classified as `Match` exactly when it was not ignored and the
/// comparison held, and as `NoMatch` exactly when it was not ignored and the
/// comparison failed.
pub proof fn lemma_classification_tells_the_verdicts(ignored: bool, matched: bool)
    ensures
        MatchType::classification(ignored, matched) == MatchType::Match <==> !ignored && matched,
        MatchType::classification(ignored, matched) == MatchType::NoMatch <==> !ignored && !matched,
        MatchType::classification(ignored, matched) == MatchType::Ignored <==> ignored,
{
}

/// A disabled experiment reaches the current subject and nothing else: once the
/// publisher has said no, carrying out asks only that the current subject
/// accept the parameter as it came. The new subject and the hooks may be
/// callables that accept no argument at all, so none of them is called.
pub proof fn lemma_disabled_reaches_only_current<P, Cr: Clone, Nr: Clone>(
    view: ExperimentView<P, Cr, Nr>,
    param: P,
)
    ensures
        view.runs_on(param, false) <==> (view.current.accepts)(param),
{
}

/// A run gate that stays shut keeps the new subject from running: where the
/// gate never lets a prepared parameter through, carrying out asks nothing of
/// the new subject or of the ignore hook, so neither is called, while the
/// current subject must still accept the prepared parameter.
pub proof fn lemma_shut_gate_reaches_no_new_subject<P, Cr: Clone, Nr: Clone>(
    view: ExperimentView<P, Cr, Nr>,
    param: P,
)
    requires
        forall|prepared: P| #[trigger] view.prepares(param, prepared) ==> !view.admits(prepared, true),
    ensures
        view.runs_on(param, true) <==> {
            &&& view.setup matches Some(setup) ==> (setup.accepts)(param)
            &&& forall|prepared: P| #[trigger]
                view.prepares(param, prepared) ==> {
                    &&& (view.current.accepts)(prepared)
                    &&& view.run_if matches Some(run_if) ==> (run_if.accepts)(prepared)
                }
        },
{
}

/// Without hooks a trial runs on the parameter as it came, is never turned
/// down, and is never ignored.
pub proof fn lemma_without_hooks<P, Cr: Clone, Nr: Clone>(
    view: ExperimentView<P, Cr, Nr>,
    param: P,
    prepared: P,
    answer: bool,
)
    requires
        view.setup is None,
        view.run_if is None,
        view.ignore_if is None,
    ensures
        view.prepares(param, prepared) <==> prepared == param,
        view.admits(prepared, answer) <==> answer,
        view.ignores(prepared, answer) <==> !answer,
{
}

/// Setup comes before everything else in a trial: where an experiment has a
/// setup step, the run gate, both subjects and the ignore hook all see the
/// parameter that setup handed back, not the one the caller gave.
pub proof fn lemma_setup_precedes_gating<P, Cr: Clone, Nr: Clone>(
    view: ExperimentView<P, Cr, Nr>,
    param: P,
    prepared: P,
    value: Cr,
    new_value: Nr,
    ignored: bool,
)
    requires
        view.setup is Some,
        view.tries(param, prepared, value, new_value),
        view.ignores(prepared, ignored),
    ensures
        (view.setup.unwrap().yields)(param, prepared),
        view.run_if matches Some(run_if) ==> (run_if.yields)(prepared, true),
        (view.current.yields)(prepared, value),
        (view.new.yields)(prepared, new_value),
        view.ignore_if matches Some(ignore_if) ==> (ignore_if.yields)(prepared, ignored),
{
}

/// When a trial is published as a `Match`, by a publisher that reports a match
/// only for equal outputs, and the outputs are of a type that clones to equal
/// values, then the value handed back to the caller equals both values in the
/// published result.
pub proof fn lemma_match_returns_both_outputs<P, T: Clone>(
    view: ExperimentView<P, T, T>,
    value: T,
    new_value: T,
    ignored: bool,
    matched: bool,
    result: ExperimentResult<T, T>,
)
    requires
        view.records(value, new_value, ignored, matched, result),
        result.match_type == MatchType::Match,
        matched ==> value == new_value,
        forall|source: T, copy: T| #[trigger] cloned(source, copy) ==> copy == source,
    ensures
        result.current.result == value,
        result.new.result == value,
{
    assert(cloned(value, result.current.result));
    assert(cloned(new_value, result.new.result));
}

} // verus!
