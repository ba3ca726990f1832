use vstd::prelude::*;
use std::rc::Rc;

use crate::lambda;
use crate::rust_core::conj;
use crate::rust_core::inc;
use crate::rust_core::lazy_seq;
use crate::value::Value;

verus! {

/// The invocable capability: every callable of the runtime — a closure or a
/// builtin — is one variant, and `invoke` is the single dispatch point used
/// by the evaluator, by builtins, and by lazy-sequence stepping. A new
/// callable is admitted by adding a variant; every consumption point is an
/// exhaustive match.
#[derive(Debug, PartialEq)]
pub enum Invocable {
    Lambda(lambda::Fn),
    Conj(conj::ConjFn),
    LazySeq(lazy_seq::LazySeqFn),
    Inc(inc::IncFn),
}

/// What invoking a callable with `args` returns, by variant.
pub open spec fn invoke_post(f: Invocable, args: Seq<Rc<Value>>, r: Value) -> bool {
    match f {
        Invocable::Lambda(l) => lambda::fn_invoke_post(l, args, r),
        Invocable::Conj(_) => conj::conj_post(args, r),
        Invocable::LazySeq(_) => lazy_seq::lazy_seq_post(args, r),
        Invocable::Inc(_) => inc::inc_post(args, r),
    }
}

impl Invocable {
    /// Apply this callable to an ordered argument list. Errors come back as
    /// `Condition` values, never as panics.
    pub fn invoke(&self, args: Vec<Rc<Value>>) -> (r: Rc<Value>)
        ensures
            invoke_post(*self, args@, *r),
    {
        match self {
            Invocable::Lambda(l) => l.invoke(args),
            Invocable::Conj(f) => f.invoke(args),
            Invocable::LazySeq(f) => f.invoke(args),
            Invocable::Inc(f) => f.invoke(args),
        }
    }
}

} // verus!
