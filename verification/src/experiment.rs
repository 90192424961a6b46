//! The experiment: two subjects, the hooks that gate them, and the trial that
//! runs both and reports how they compare.

use vstd::prelude::*;
use crate::callable::reading;
use crate::callable::transforming;
use crate::callable::Reader;
use crate::callable::Transformer;
use crate::clock::elapsed;
use crate::model::hook_text;
use crate::model::ExperimentView;
use crate::order::draw_order;
use crate::order::is_order;
use crate::order::CURRENT;
use crate::outcome::ExperimentResult;
use crate::outcome::MatchType;
use crate::outcome::SubjectResult;
use crate::publisher::Publisher;
use crate::text::quoted;

verus! {

/// The text that stands for a hook in the description of an experiment.
fn hook_label(present: bool) -> (label: &'static str)
    ensures
        label@ == hook_text(present),
{
    if present {
        "\"Some(Fn(...))\""
    } else {
        "\"None\""
    }
}

/// An experiment: a current and a new way of computing something, to be run
/// side by side on one parameter. An experiment is used up by carrying it out.
#[must_use]
#[verifier::reject_recursive_types(P)]
#[verifier::reject_recursive_types(Cr)]
#[verifier::reject_recursive_types(Nr)]
pub struct Experiment<'a, P, Cr: Clone, Nr: Clone> {
    name: &'static str,
    current: Box<dyn Reader<P, Cr> + 'a>,
    new: Box<dyn Reader<P, Nr> + 'a>,
    setup: Option<Box<dyn Transformer<P> + 'a>>,
    run_if: Option<Box<dyn Reader<P, bool> + 'a>>,
    ignore_if: Option<Box<dyn Reader<P, bool> + 'a>>,
}

impl<'a, P, Cr: Clone, Nr: Clone> View for Experiment<'a, P, Cr, Nr> {
    type V = ExperimentView<P, Cr, Nr>;

    closed spec fn view(&self) -> ExperimentView<P, Cr, Nr> {
        ExperimentView {
            name: self.name,
            current: self.current.operation(),
            new: self.new.operation(),
            setup: match self.setup {
                Some(setup) => Some(setup.operation()),
                None => None,
            },
            run_if: match self.run_if {
                Some(run_if) => Some(run_if.operation()),
                None => None,
            },
            ignore_if: match self.ignore_if {
                Some(ignore_if) => Some(ignore_if.operation()),
                None => None,
            },
        }
    }
}

impl<'a, P, Cr: Clone, Nr: Clone> Experiment<'a, P, Cr, Nr> {
    /// Constructs a new `Experiment` with a current and a new subject and no hooks.
    pub fn new<C, N>(name: &'static str, current_subject: C, new_subject: N) -> (experiment: Self) where
        C: FnMut(&P) -> Cr + 'a,
        N: FnMut(&P) -> Nr + 'a,

        ensures
            experiment@ == (ExperimentView {
                name,
                current: reading(current_subject),
                new: reading(new_subject),
                setup: None,
                run_if: None,
                ignore_if: None,
            }),
    {
        Experiment {
            name: name,
            current: Box::new(current_subject),
            new: Box::new(new_subject),
            setup: None,
            run_if: None,
            ignore_if: None,
        }
    }

    /// Adds a setup step to the experiment, in place of any it had.
    ///
    /// The setup function can alter the parameter before it is passed to the
    /// `run_if` closure, the `ignore_if` closure, and the two subject closures.
    pub fn setup<S>(self, setup: S) -> (experiment: Self) where S: FnMut(P) -> P + 'a
        ensures
            experiment@ == (ExperimentView { setup: Some(transforming(setup)), ..self@ }),
    {
        Experiment {
            name: self.name,
            current: self.current,
            new: self.new,
            setup: Some(Box::new(setup)),
            run_if: self.run_if,
            ignore_if: self.ignore_if,
        }
    }

    /// Adds a check step that will disable the experiment in certain cases, in
    /// place of any it had.
    ///
    /// If the closure returns false when passed the experiment's parameter, the
    /// experiment returns the current subject's result without publishing.
    pub fn run_if<R>(self, run_if: R) -> (experiment: Self) where R: FnMut(&P) -> bool + 'a
        ensures
            experiment@ == (ExperimentView { run_if: Some(reading(run_if)), ..self@ }),
    {
        Experiment {
            name: self.name,
            current: self.current,
            new: self.new,
            setup: self.setup,
            run_if: Some(Box::new(run_if)),
            ignore_if: self.ignore_if,
        }
    }

    /// Adds a check step that will ignore mismatches in certain cases, in place
    /// of any it had.
    ///
    /// If the closure returns true when passed the experiment's parameter, the
    /// result will have a `MatchType` of `Ignored`.
    pub fn ignore_if<I>(self, ignore_if: I) -> (experiment: Self) where I: FnMut(&P) -> bool + 'a
        ensures
            experiment@ == (ExperimentView { ignore_if: Some(reading(ignore_if)), ..self@ }),
    {
        Experiment {
            name: self.name,
            current: self.current,
            new: self.new,
            setup: self.setup,
            run_if: self.run_if,
            ignore_if: Some(Box::new(ignore_if)),
        }
    }

    /// Describes the experiment on one line, for inspection. The closures show
    /// as placeholders.
    pub fn describe(&self) -> (text: String)
        ensures
            text@ == self@.description(),
    {
        let mut text = String::from_str("Experiment { name: ");
        text.append(quoted(self.name).as_str());
        text.append(", current: \"Fn(...)\", new: \"Fn(...)\", setup: ");
        text.append(hook_label(self.setup.is_some()));
        text.append(", run_if: ");
        text.append(hook_label(self.run_if.is_some()));
        text.append(", ignore_if: ");
        text.append(hook_label(self.ignore_if.is_some()));
        text.append(" }");
        text
    }

    /// Carry out the experiment given a parameter and a publisher.
    ///
    /// Returns the result of the current subject closure, whatever the new one
    /// did. The publisher is asked once whether experiments are enabled. Then
    /// one of four things happens, and the second clause of the contract has one
    /// alternative for each, in this order:
    /// * the publisher said no: the current subject runs on the parameter as it
    ///   came, and the publisher is not touched again;
    /// * the run gate turns the prepared parameter down: the current subject runs
    ///   on the prepared parameter, and the publisher is not touched again;
    /// * the ignore hook fires: both subjects ran on the prepared parameter, the
    ///   publisher is not asked to compare, and the one result it receives is
    ///   `Ignored`;
    /// * otherwise both subjects ran on the prepared parameter, the publisher
    ///   compared the two outputs once, and the one result it receives says how.
    ///
    /// What the publisher's methods did is told by what they themselves ensure.
    /// In the contract `switch`, `judge` and `sink` are the borrows of the
    /// publisher on which `enabled`, `compare` and `publish` were called: each
    /// starts from the publisher as the call before it left it, and the last one
    /// leaves the publisher as the caller finds it.
    ///
    /// The two subjects run one after the other, in an order drawn afresh for
    /// every trial, and each is timed on its own.
    pub fn carry_out<Pub: Publisher<P, Cr, Nr>>(self, param: P, publisher: &mut Pub) -> (value: Cr)
        requires
            forall|switch: &mut Pub, on: bool|
                mut_ref_current(switch) == *old(publisher) && #[trigger] call_ensures(
                    Pub::enabled,
                    (switch,),
                    on,
                ) ==> self@.runs_on(param, on),
        ensures
            (self@.current.yields)(param, value) || exists|prepared: P| #[trigger]
                self@.prepares(param, prepared) && (self@.current.yields)(prepared, value),
            exists|switch: &mut Pub, on: bool|
                {
                    &&& mut_ref_current(switch) == *old(publisher)
                    &&& #[trigger] call_ensures(Pub::enabled, (switch,), on)
                    &&& {
                        // Disabled.
                        ||| {
                            &&& !on
                            &&& (self@.current.yields)(param, value)
                            &&& *final(publisher) == mut_ref_future(switch)
                        }
                        // Turned down by the run gate.
                        ||| exists|prepared: P|
                            {
                                &&& on
                                &&& #[trigger] self@.prepares(param, prepared)
                                &&& self@.admits(prepared, false)
                                &&& (self@.current.yields)(prepared, value)
                                &&& *final(publisher) == mut_ref_future(switch)
                            }
                        // Ignored: published without a comparison.
                        ||| exists|
                            prepared: P,
                            new_value: Nr,
                            sink: &mut Pub,
                            result: ExperimentResult<Cr, Nr>,
                        |
                            {
                                &&& on
                                &&& #[trigger] self@.tries(param, prepared, value, new_value)
                                &&& self@.ignores(prepared, true)
                                &&& self@.records(value, new_value, true, false, result)
                                &&& mut_ref_current(sink) == mut_ref_future(switch)
                                &&& #[trigger] call_ensures(Pub::publish, (sink, result), ())
                                &&& *final(publisher) == mut_ref_future(sink)
                            }
                        // Compared, then published.
                        ||| exists|
                            prepared: P,
                            new_value: Nr,
                            judge: &mut Pub,
                            matched: bool,
                            sink: &mut Pub,
                            result: ExperimentResult<Cr, Nr>,
                        |
                            {
                                &&& on
                                &&& #[trigger] self@.tries(param, prepared, value, new_value)
                                &&& self@.ignores(prepared, false)
                                &&& mut_ref_current(judge) == mut_ref_future(switch)
                                &&& #[trigger] call_ensures(
                                    Pub::compare,
                                    (judge, &value, &new_value),
                                    matched,
                                )
                                &&& self@.records(value, new_value, false, matched, result)
                                &&& mut_ref_current(sink) == mut_ref_future(judge)
                                &&& #[trigger] call_ensures(Pub::publish, (sink, result), ())
                                &&& *final(publisher) == mut_ref_future(sink)
                            }
                    }
                },
    {
        let ghost view = self@;
        let mut current = self.current;
        if !publisher.enabled() {
            return current.read(&param);
        }
        let ghost given = param;
        let param = match self.setup {
            Some(mut setup) => setup.transform(param),
            None => param,
        };
        assert(view.prepares(given, param));
        if let Some(mut run_if) = self.run_if {
            if !run_if.read(&param) {
                return current.read(&param);
            }
        }

        let mut new = self.new;
        let mut current_val: Option<Cr> = None;
        let mut new_val: Option<Nr> = None;
        let mut current_duration: u64 = 0;
        let mut new_duration: u64 = 0;
        let order = draw_order();
        let mut i: usize = 0;
        while i < 2
            invariant
                i <= 2,
                is_order(order@),
                current.operation() == view.current,
                new.operation() == view.new,
                (view.current.accepts)(param),
                (view.new.accepts)(param),
                (i >= 1 && order[0] == CURRENT) || (i >= 2 && order[1] == CURRENT)
                    ==> current_val is Some,
                (i >= 1 && order[0] != CURRENT) || (i >= 2 && order[1] != CURRENT)
                    ==> new_val is Some,
                current_val matches Some(value) ==> (view.current.yields)(param, value),
                new_val matches Some(new_value) ==> (view.new.yields)(param, new_value),
            decreases 2 - i,
        {
            if order[i] == CURRENT {
                let start = time::precise_time_ns();
                current_val = Some(current.read(&param));
                current_duration = elapsed(start, time::precise_time_ns());
            } else {
                let start = time::precise_time_ns();
                new_val = Some(new.read(&param));
                new_duration = elapsed(start, time::precise_time_ns());
            }
            i += 1;
        }
        let current_val = current_val.unwrap();
        let new_val = new_val.unwrap();
        assert(view.tries(given, param, current_val, new_val));

        let ignored = match self.ignore_if {
            Some(mut ignore_if) => ignore_if.read(&param),
            None => false,
        };
        let matched = !ignored && publisher.compare(&current_val, &new_val);
        publisher.publish(
            ExperimentResult::new(
                self.name,
                SubjectResult::new(current_duration, &current_val),
                SubjectResult::new(new_duration, &new_val),
                MatchType::classify(ignored, matched),
            ),
        );
        current_val
    }
}

} // verus!
