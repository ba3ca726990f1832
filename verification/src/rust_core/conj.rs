use vstd::prelude::*;
use std::rc::Rc;

use crate::error_message;
use crate::ifn::Invocable;
use crate::type_tag::TypeTag;
use crate::value::Value;

verus! {

/// The `(conj coll x1 .. xk)` builtin: a new vector holding `coll`'s elements
/// followed by the given items. The original collection is never altered.
#[derive(Debug, Clone, Copy, PartialEq, Eq)]
pub struct ConjFn {}

/// What `conj` returns: a fresh vector extending the given one, a
/// wrong-argument-count condition below two arguments, and a type-mismatch
/// condition when the first argument is not a vector.
pub open spec fn conj_post(args: Seq<Rc<Value>>, r: Value) -> bool {
    if args.len() < 2 {
        r matches Value::Condition(m) && m@ == error_message::wrong_arg_count_msg(2, args.len())
    } else {
        match *args[0] {
            Value::PersistentVector(v) => (r matches Value::PersistentVector(w) && w@ == v@
                + args.subrange(1, args.len() as int)),
            _ => (r matches Value::Condition(m) && m@ == error_message::type_mismatch_msg(
                TypeTag::PersistentVector.name_seq(),
                (*args[0]).spec_tag().name_seq(),
            )),
        }
    }
}

impl ConjFn {
    /// Invoke `conj` on `args`: `args[0]` is the collection, the rest are the
    /// items to append, in argument order.
    pub fn invoke(&self, args: Vec<Rc<Value>>) -> (r: Rc<Value>)
        ensures
            conj_post(args@, *r),
    {
        if args.len() < 2 {
            return Rc::new(error_message::wrong_arg_count(2, args.len()));
        }
        let coll = &args[0];
        match &**coll {
            Value::PersistentVector(v) => {
                let mut out: Vec<Rc<Value>> = Vec::new();
                let mut i: usize = 0;
                while i < v.len()
                    invariant
                        i <= v@.len(),
                        out@ =~= v@.subrange(0, i as int),
                    decreases v@.len() - i,
                {
                    out.push(Rc::clone(&v[i]));
                    i = i + 1;
                }
                let mut j: usize = 1;
                while j < args.len()
                    invariant
                        1 <= j <= args@.len(),
                        out@ =~= v@ + args@.subrange(1, j as int),
                    decreases args@.len() - j,
                {
                    out.push(Rc::clone(&args[j]));
                    j = j + 1;
                }
                proof {
                    assert(out@ =~= v@ + args@.subrange(1, args@.len() as int));
                }
                Rc::new(Value::PersistentVector(out))
            },
            _ => Rc::new(error_message::type_mismatch(TypeTag::PersistentVector, coll)),
        }
    }

    /// This builtin as a value carrying the invocable capability.
    pub fn to_value(&self) -> (r: Value)
        ensures
            (r matches Value::IFn(f) && *f == Invocable::Conj(*self)),
    {
        Value::IFn(Rc::new(Invocable::Conj(*self)))
    }
}

} // verus!
