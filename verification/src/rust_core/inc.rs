use vstd::prelude::*;
use vstd::string::StringExecFns;
use std::rc::Rc;

use crate::error_message;
use crate::ifn::Invocable;
use crate::type_tag::TypeTag;
use crate::value::Value;

verus! {

/// The `(inc x)` builtin: the successor of an integer. A pure step function,
/// the usual seed for a lazy sequence.
#[derive(Debug, Clone, Copy, PartialEq, Eq)]
pub struct IncFn {}

/// What `inc` returns: the integer one above its argument, a
/// wrong-argument-count condition unless given exactly one argument, an
/// overflow condition at the top of the integer range, and a type-mismatch
/// condition on a non-integer.
pub open spec fn inc_post(args: Seq<Rc<Value>>, r: Value) -> bool {
    if args.len() != 1 {
        r matches Value::Condition(m) && m@ == error_message::wrong_arg_count_msg(1, args.len())
    } else {
        match *args[0] {
            Value::I32(i) => if i < i32::MAX {
                r == Value::I32((i + 1) as i32)
            } else {
                r matches Value::Condition(m) && m@ == error_message::overflow_msg()
            },
            _ => (r matches Value::Condition(m) && m@ == error_message::type_mismatch_msg(
                TypeTag::I32.name_seq(),
                (*args[0]).spec_tag().name_seq(),
            )),
        }
    }
}

impl IncFn {
    /// Invoke `inc` on `args`.
    pub fn invoke(&self, args: Vec<Rc<Value>>) -> (r: Rc<Value>)
        ensures
            inc_post(args@, *r),
    {
        if args.len() != 1 {
            return Rc::new(error_message::wrong_arg_count(1, args.len()));
        }
        match &*args[0] {
            Value::I32(i) => {
                if *i < i32::MAX {
                    Rc::new(Value::I32(*i + 1))
                } else {
                    Rc::new(Value::Condition(String::from_str("Integer overflow")))
                }
            },
            _ => Rc::new(error_message::type_mismatch(TypeTag::I32, &args[0])),
        }
    }

    /// This builtin as a value carrying the invocable capability.
    pub fn to_value(&self) -> (r: Value)
        ensures
            (r matches Value::IFn(f) && *f == Invocable::Inc(*self)),
    {
        Value::IFn(Rc::new(Invocable::Inc(*self)))
    }
}

} // verus!
