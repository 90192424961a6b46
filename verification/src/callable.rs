//! The callables an experiment owns. They are held behind two object-safe
//! traits, so that the type of an experiment does not depend on the closures it
//! was built from.

use vstd::prelude::*;

verus! {

/// What is known of a callable: the arguments it accepts, and the outputs it
/// may give for each of them.
#[verifier::reject_recursive_types(A)]
#[verifier::reject_recursive_types(R)]
pub struct Operation<A, R> {
    /// The arguments the callable may be called with.
    pub accepts: spec_fn(A) -> bool,
    /// The outputs the callable may give for an argument.
    pub yields: spec_fn(A, R) -> bool,
}

/// What is known of a closure that reads the parameter.
pub open spec fn reading<P, R, F: FnMut(&P) -> R>(f: F) -> Operation<P, R> {
    Operation {
        accepts: |param: P| call_requires(f, (&param,)),
        yields: |param: P, output: R| call_ensures(f, (&param,), output),
    }
}

/// What is known of a closure that takes the parameter and hands one back.
pub open spec fn transforming<P, F: FnMut(P) -> P>(f: F) -> Operation<P, P> {
    Operation {
        accepts: |param: P| call_requires(f, (param,)),
        yields: |param: P, output: P| call_ensures(f, (param,), output),
    }
}

/// A callable that reads the parameter: a subject, or a gate.
pub(crate) trait Reader<P, R> {
    spec fn operation(&self) -> Operation<P, R>;

    fn read(&mut self, param: &P) -> (output: R)
        requires
            (old(self).operation().accepts)(*param),
        ensures
            (old(self).operation().yields)(*param, output),
            final(self).operation() == old(self).operation(),
    ;
}

impl<P, R, F: FnMut(&P) -> R> Reader<P, R> for F {
    open spec fn operation(&self) -> Operation<P, R> {
        reading(*self)
    }

    fn read(&mut self, param: &P) -> (output: R) {
        self(param)
    }
}

/// A callable that takes the parameter and hands back the one to go on with.
pub(crate) trait Transformer<P> {
    spec fn operation(&self) -> Operation<P, P>;

    fn transform(&mut self, param: P) -> (output: P)
        requires
            (old(self).operation().accepts)(param),
        ensures
            (old(self).operation().yields)(param, output),
            final(self).operation() == old(self).operation(),
    ;
}

impl<P, F: FnMut(P) -> P> Transformer<P> for F {
    open spec fn operation(&self) -> Operation<P, P> {
        transforming(*self)
    }

    fn transform(&mut self, param: P) -> (output: P) {
        self(param)
    }
}

} // verus!
