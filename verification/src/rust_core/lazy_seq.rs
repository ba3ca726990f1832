use vstd::prelude::*;
use std::rc::Rc;

use crate::error_message;
use crate::ifn::Invocable;
use crate::lazy_sequence::LazySequence;
use crate::type_tag::TypeTag;
use crate::value::Value;

verus! {

/// The `(lazy-seq init step)` builtin: pairs an initial element with a step
/// function into a lazy sequence value.
#[derive(Debug, Clone, Copy, PartialEq, Eq)]
pub struct LazySeqFn {}

/// What `lazy-seq` returns: a lazy sequence node over the two arguments, a
/// wrong-argument-count condition unless given exactly two, and a
/// type-mismatch condition when the step argument is not invocable.
pub open spec fn lazy_seq_post(args: Seq<Rc<Value>>, r: Value) -> bool {
    if args.len() != 2 {
        r matches Value::Condition(m) && m@ == error_message::wrong_arg_count_msg(2, args.len())
    } else if (*args[1]) matches Value::IFn(_) {
        r matches Value::LazySequence(ls) && ls.cons == args[0] && ls.next == args[1]
    } else {
        r matches Value::Condition(m) && m@ == error_message::type_mismatch_msg(
            TypeTag::IFn.name_seq(),
            (*args[1]).spec_tag().name_seq(),
        )
    }
}

impl LazySeqFn {
    /// Invoke `lazy-seq` on `args`: `args[0]` is the realized first element,
    /// `args[1]` the step function.
    pub fn invoke(&self, args: Vec<Rc<Value>>) -> (r: Rc<Value>)
        ensures
            lazy_seq_post(args@, *r),
    {
        if args.len() != 2 {
            return Rc::new(error_message::wrong_arg_count(2, args.len()));
        }
        match LazySequence::new(Rc::clone(&args[0]), Rc::clone(&args[1])) {
            Some(ls) => Rc::new(Value::LazySequence(ls)),
            None => Rc::new(error_message::type_mismatch(TypeTag::IFn, &args[1])),
        }
    }

    /// This builtin as a value carrying the invocable capability.
    pub fn to_value(&self) -> (r: Value)
        ensures
            (r matches Value::IFn(f) && *f == Invocable::LazySeq(*self)),
    {
        Value::IFn(Rc::new(Invocable::LazySeq(*self)))
    }
}

} // verus!
