//! An experiment as its contracts see it: what is known of each callable it
//! holds, and what a trial may do with them.

use vstd::prelude::*;
use crate::callable::Operation;
use crate::outcome::ExperimentResult;
use crate::outcome::MatchType;
use crate::text::debug_text;

verus! {

/// What an experiment is made of, as its contracts see it.
#[verifier::reject_recursive_types(P)]
#[verifier::reject_recursive_types(Cr)]
#[verifier::reject_recursive_types(Nr)]
pub struct ExperimentView<P, Cr, Nr> {
    /// The name that every published result carries.
    pub name: &'static str,
    /// The current path, whose output is handed back to the caller.
    pub current: Operation<P, Cr>,
    /// The new path, whose output is only observed.
    pub new: Operation<P, Nr>,
    /// Turns the caller's parameter into the one the trial runs on.
    pub setup: Option<Operation<P, P>>,
    /// Decides whether the trial runs at all.
    pub run_if: Option<Operation<P, bool>>,
    /// Decides whether a mismatch is set aside.
    pub ignore_if: Option<Operation<P, bool>>,
}

impl<P, Cr: Clone, Nr: Clone> ExperimentView<P, Cr, Nr> {
    /// The setup step may turn `param` into `prepared`. Without a setup step the
    /// parameter goes on as it came.
    pub open spec fn prepares(self, param: P, prepared: P) -> bool {
        match self.setup {
            Some(setup) => (setup.yields)(param, prepared),
            None => prepared == param,
        }
    }

    /// The run gate may answer `run` for `prepared`. Without a run gate every
    /// trial runs.
    pub open spec fn admits(self, prepared: P, run: bool) -> bool {
        match self.run_if {
            Some(run_if) => (run_if.yields)(prepared, run),
            None => run,
        }
    }

    /// The ignore hook may answer `ignored` for `prepared`. Without an ignore
    /// hook nothing is ignored.
    pub open spec fn ignores(self, prepared: P, ignored: bool) -> bool {
        match self.ignore_if {
            Some(ignore_if) => (ignore_if.yields)(prepared, ignored),
            None => !ignored,
        }
    }

    /// Every call that carrying out the experiment on `param` makes, once the
    /// publisher has answered `on`, is one that its callable accepts: a callable
    /// that is not reached need not accept anything.
    pub open spec fn runs_on(self, param: P, on: bool) -> bool {
        if on {
            &&& self.setup matches Some(setup) ==> (setup.accepts)(param)
            &&& forall|prepared: P| #[trigger]
                self.prepares(param, prepared) ==> {
                    &&& (self.current.accepts)(prepared)
                    &&& self.run_if matches Some(run_if) ==> (run_if.accepts)(prepared)
                    &&& self.admits(prepared, true) ==> {
                        &&& (self.new.accepts)(prepared)
                        &&& self.ignore_if matches Some(ignore_if) ==> (ignore_if.accepts)(
                            prepared,
                        )
                    }
                }
        } else {
            (self.current.accepts)(param)
        }
    }

    /// A trial on `param` that got past the run gate may have run both paths on
    /// `prepared`, with `value` from the current path and `new_value` from the new.
    pub open spec fn tries(self, param: P, prepared: P, value: Cr, new_value: Nr) -> bool {
        &&& self.prepares(param, prepared)
        &&& self.admits(prepared, true)
        &&& (self.current.yields)(prepared, value)
        &&& (self.new.yields)(prepared, new_value)
    }

    /// `result` is the record of a trial that gave `value` and `new_value`: it
    /// carries the experiment's name, a clone of each output, and the
    /// classification that the two verdicts call for.
    pub open spec fn records(
        self,
        value: Cr,
        new_value: Nr,
        ignored: bool,
        matched: bool,
        result: ExperimentResult<Cr, Nr>,
    ) -> bool {
        &&& result.name == self.name
        &&& cloned(value, result.current.result)
        &&& cloned(new_value, result.new.result)
        &&& result.match_type == MatchType::classification(ignored, matched)
    }
}

/// How a hook shows in the description of an experiment: only whether it is
/// there, for a closure has nothing to print.
pub open spec fn hook_text(present: bool) -> Seq<char> {
    if present {
        "\"Some(Fn(...))\""@
    } else {
        "\"None\""@
    }
}

impl<P, Cr, Nr> ExperimentView<P, Cr, Nr> {
    /// The experiment on one line, field by field: the name as `{:?}` prints it,
    /// a placeholder for each subject, and for each hook whether it is there.
    pub open spec fn description(self) -> Seq<char> {
        "Experiment { name: "@
            + debug_text(self.name@)
            + ", current: \"Fn(...)\", new: \"Fn(...)\", setup: "@
            + hook_text(self.setup is Some)
            + ", run_if: "@
            + hook_text(self.run_if is Some)
            + ", ignore_if: "@
            + hook_text(self.ignore_if is Some)
            + " }"@
    }
}

} // verus!
