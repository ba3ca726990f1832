use vstd::prelude::*;
use vstd::string::StringExecFns;
use std::rc::Rc;

use crate::environment::Environment;
use crate::error_message;
use crate::ifn::Invocable;
use crate::lazy_sequence::LazySequence;
use crate::symbol::Symbol;
use crate::type_tag::TypeTag;

verus! {

/// The closed sum of runtime values. Values are immutable once constructed
/// and are shared by reference (`Rc`); every "update" of a container builds a
/// new value, so no ownership cycle can form.
///
/// `Condition` is a first-class error value: a failed operation returns it
/// instead of panicking, and callers branch on the tag.
#[derive(Debug, PartialEq)]
pub enum Value {
    Nil,
    I32(i32),
    String(String),
    Symbol(Symbol),
    /// A callable value; anything carrying the invocable capability.
    IFn(Rc<Invocable>),
    PersistentList(Vec<Rc<Value>>),
    PersistentVector(Vec<Rc<Value>>),
    PersistentMap(Vec<(Rc<Value>, Rc<Value>)>),
    LazySequence(LazySequence),
    Condition(String),
}

impl Value {
    /// The tag of this value's variant.
    pub open spec fn spec_tag(self) -> TypeTag {
        match self {
            Value::Nil => TypeTag::Nil,
            Value::I32(_) => TypeTag::I32,
            Value::String(_) => TypeTag::String,
            Value::Symbol(_) => TypeTag::Symbol,
            Value::IFn(_) => TypeTag::IFn,
            Value::PersistentList(_) => TypeTag::PersistentList,
            Value::PersistentVector(_) => TypeTag::PersistentVector,
            Value::PersistentMap(_) => TypeTag::PersistentMap,
            Value::LazySequence(_) => TypeTag::LazySequence,
            Value::Condition(_) => TypeTag::Condition,
        }
    }

    /// The tag of this value's variant.
    pub fn type_tag(&self) -> (t: TypeTag)
        ensures
            t == self.spec_tag(),
    {
        match self {
            Value::Nil => TypeTag::Nil,
            Value::I32(_) => TypeTag::I32,
            Value::String(_) => TypeTag::String,
            Value::Symbol(_) => TypeTag::Symbol,
            Value::IFn(_) => TypeTag::IFn,
            Value::PersistentList(_) => TypeTag::PersistentList,
            Value::PersistentVector(_) => TypeTag::PersistentVector,
            Value::PersistentMap(_) => TypeTag::PersistentMap,
            Value::LazySequence(_) => TypeTag::LazySequence,
            Value::Condition(_) => TypeTag::Condition,
        }
    }
}

/// What evaluating `body` in an environment returns: a symbol resolves to its
/// nearest binding (or to an unbound-symbol condition), and every other value
/// evaluates to itself.
pub open spec fn eval_post(body: Value, env: Map<Seq<char>, Value>, r: Value) -> bool {
    match body {
        Value::Symbol(s) => {
            if env.contains_key(s.name@) {
                r == env[s.name@]
            } else {
                r matches Value::Condition(m) && m@ == error_message::unbound_symbol_msg(s.name@)
            }
        },
        _ => r == body,
    }
}

/// Evaluate `body` in `env`. This core's bodies are values, not expressions:
/// a symbol is looked up along the environment chain, anything else is
/// self-evaluating. The full expression evaluator is an external collaborator.
pub fn eval(body: &Rc<Value>, env: &Environment) -> (r: Rc<Value>)
    ensures
        eval_post(**body, env.model(), *r),
{
    match &**body {
        Value::Symbol(s) => {
            match env.lookup(s) {
                Some(v) => v,
                None => {
                    let mut m = String::from_str("Undefined symbol: ");
                    m.append(s.name.as_str());
                    Rc::new(Value::Condition(m))
                },
            }
        },
        _ => Rc::clone(body),
    }
}

} // verus!
