use vstd::prelude::*;
use std::rc::Rc;

use crate::environment::Environment;
use crate::error_message;
use crate::ifn::Invocable;
use crate::symbol::Symbol;
use crate::value::{eval, eval_post, Value};

verus! {

/// A closure: an ordered list of implementations — each a (parameter list,
/// body) pair — plus the environment captured at creation time (shared, not
/// copied). Dispatch tries the implementations in declared order and the
/// first whose arity test accepts the call wins.
#[derive(Debug, PartialEq)]
pub struct Fn {
    pub implementations: Rc<Vec<(Vec<Symbol>, Rc<Value>)>>,
    pub enclosing_environment: Rc<Environment>,
}

/// A parameter list is variadic exactly when it has at least two symbols and
/// the second-to-last is the literal `&`; the last then names the rest
/// parameter.
pub open spec fn is_variadic(params: Seq<Symbol>) -> bool {
    params.len() >= 2 && params[params.len() - 2].is_amp()
}

/// Whether a parameter list accepts a call with `n` arguments: a variadic
/// list accepts `n >= len - 2`, a fixed list only `n == len`.
pub open spec fn accepts_arity(params: Seq<Symbol>, n: nat) -> bool {
    if is_variadic(params) {
        n >= params.len() - 2
    } else {
        n == params.len()
    }
}

/// Index of the first implementation whose arity test accepts `n` arguments.
pub open spec fn first_accepting(impls: Seq<(Vec<Symbol>, Rc<Value>)>, n: nat) -> Option<int>
    decreases impls.len(),
{
    if impls.len() == 0 {
        None
    } else if accepts_arity(impls[0].0@, n) {
        Some(0)
    } else {
        match first_accepting(impls.drop_first(), n) {
            None => None,
            Some(i) => Some(i + 1),
        }
    }
}

/// Position of the first `&` the positional binding loop meets, scanning
/// indices `from <= i < n` that lie inside the parameter list.
pub open spec fn first_amp_from(params: Seq<Symbol>, n: int, from: int) -> Option<int>
    decreases n - from,
{
    if from >= n || from >= params.len() {
        None
    } else if params[from].is_amp() {
        Some(from)
    } else {
        first_amp_from(params, n, from + 1)
    }
}

/// Position of the first `&` among the parameters the positional binding
/// loop visits for a call with `n` arguments.
pub open spec fn first_amp(params: Seq<Symbol>, n: int) -> Option<int> {
    first_amp_from(params, n, 0)
}

/// The environment after binding `params[0..upto]` positionally to the first
/// `upto` arguments, in order.
pub open spec fn bind_positional(
    m: Map<Seq<char>, Value>,
    params: Seq<Symbol>,
    args: Seq<Rc<Value>>,
    upto: int,
) -> Map<Seq<char>, Value>
    decreases upto,
{
    if upto <= 0 {
        m
    } else {
        bind_positional(m, params, args, upto - 1).insert(params[upto - 1].name@, *args[upto - 1])
    }
}

/// The `Nil` pre-binding of a variadic rest parameter, laid down before
/// positional binding begins so the rest parameter is defined even when no
/// variadic argument is supplied.
pub open spec fn prebind(m: Map<Seq<char>, Value>, params: Seq<Symbol>) -> Map<Seq<char>, Value> {
    if is_variadic(params) {
        m.insert(params[params.len() - 1].name@, Value::Nil)
    } else {
        m
    }
}

/// The body evaluates under the positional bindings up to position `i` plus
/// a binding of the rest parameter `params[i + 1]` to some list holding the
/// arguments from `i` on.
pub open spec fn rest_bound_eval(
    params: Seq<Symbol>,
    body: Value,
    base: Map<Seq<char>, Value>,
    args: Seq<Rc<Value>>,
    i: int,
    r: Value,
) -> bool {
    exists|restv: Value|
        (restv matches Value::PersistentList(l) && l@ == args.subrange(i, args.len() as int))
            && #[trigger] eval_post(
            body,
            bind_positional(prebind(base, params), params, args, i).insert(
                params[i + 1].name@,
                restv,
            ),
            r,
        )
}

/// Relates a call on the matched implementation `(params, body)` to its
/// result `r`, with `base` the captured environment's bindings. When the
/// loop meets `&` in a variadic list it binds the rest parameter to the
/// remaining arguments collected into a list and stops; `&` in a
/// non-variadic list is an invalid-marker condition.
pub open spec fn impl_invoke_post(
    params: Seq<Symbol>,
    body: Value,
    base: Map<Seq<char>, Value>,
    args: Seq<Rc<Value>>,
    r: Value,
) -> bool {
    let n = args.len() as int;
    match first_amp(params, n) {
        None => eval_post(body, bind_positional(prebind(base, params), params, args, n), r),
        Some(i) => if !is_variadic(params) {
            r matches Value::Condition(m) && m@ == error_message::invalid_marker_msg()
        } else {
            rest_bound_eval(params, body, base, args, i, r)
        },
    }
}

/// Relates a closure invocation to its result: first-match dispatch over the
/// implementation list in declared order, and an arity-mismatch condition
/// when no implementation accepts the call.
pub open spec fn fn_invoke_post(f: Fn, args: Seq<Rc<Value>>, r: Value) -> bool {
    match first_accepting(f.implementations@, args.len()) {
        None => r matches Value::Condition(m) && m@ == error_message::arity_dispatch_msg(),
        Some(k) => impl_invoke_post(
            f.implementations@[k].0@,
            *f.implementations@[k].1,
            (*f.enclosing_environment).model(),
            args,
            r,
        ),
    }
}

/// When the first `k` implementations reject the arity and the `k`-th
/// accepts, dispatch picks the `k`-th.
proof fn lemma_first_accepting_is(impls: Seq<(Vec<Symbol>, Rc<Value>)>, n: nat, k: int)
    requires
        0 <= k < impls.len(),
        forall|j: int| 0 <= j < k ==> !accepts_arity(#[trigger] impls[j].0@, n),
        accepts_arity(impls[k].0@, n),
    ensures
        first_accepting(impls, n) == Some(k),
    decreases k,
{
    if k > 0 {
        lemma_first_accepting_is(impls.drop_first(), n, k - 1);
    }
}

/// When every implementation rejects the arity, dispatch finds none.
proof fn lemma_first_accepting_none(impls: Seq<(Vec<Symbol>, Rc<Value>)>, n: nat)
    requires
        forall|j: int| 0 <= j < impls.len() ==> !accepts_arity(#[trigger] impls[j].0@, n),
    ensures
        first_accepting(impls, n) == None::<int>,
    decreases impls.len(),
{
    if impls.len() > 0 {
        lemma_first_accepting_none(impls.drop_first(), n);
    }
}

/// Introduces the rest-binding witness into a matched variadic call's
/// postcondition.
proof fn lemma_variadic_rest_intro(
    params: Seq<Symbol>,
    body: &Value,
    env: &Environment,
    args: Seq<Rc<Value>>,
    r: &Value,
    i: int,
    restv: &Value,
)
    requires
        is_variadic(params),
        first_amp(params, args.len() as int) == Some(i),
        ((*restv) matches Value::PersistentList(l) && l@ == args.subrange(
            i,
            args.len() as int,
        )),
        eval_post(
            *body,
            bind_positional(prebind(env.model(), params), params, args, i).insert(
                params[i + 1].name@,
                *restv,
            ),
            *r,
        ),
    ensures
        impl_invoke_post(params, *body, env.model(), args, *r),
{
    assert(rest_bound_eval(params, *body, env.model(), args, i, *r));
}

/// Scanning for `&` may skip a prefix known to hold none.
proof fn lemma_first_amp_skip(params: Seq<Symbol>, n: int, upto: int)
    requires
        0 <= upto <= n,
        forall|j: int| 0 <= j < upto ==> !(#[trigger] params[j]).is_amp(),
    ensures
        first_amp(params, n) == first_amp_from(params, n, upto),
    decreases upto,
{
    if upto > 0 {
        lemma_first_amp_skip(params, n, upto - 1);
        assert(first_amp_from(params, n, upto - 1) == first_amp_from(params, n, upto));
    }
}

impl Fn {
    /// Apply this closure to an ordered argument list: allocate a child of
    /// the captured environment, pick the first implementation whose arity
    /// accepts the call, bind parameters (positionally, with the rest
    /// parameter collecting what remains past `&`), and evaluate the body
    /// there. No accepting implementation means an arity-mismatch condition.
    #[verifier::loop_isolation(false)]
    pub fn invoke(&self, args: Vec<Rc<Value>>) -> (r: Rc<Value>)
        ensures
            fn_invoke_post(*self, args@, *r),
    {
        let n = args.len();
        let mut k: usize = 0;
        while k < self.implementations.len()
            invariant
                n == args@.len(),
                k <= self.implementations@.len(),
                forall|j: int| 0 <= j < k ==> !accepts_arity(
                    #[trigger] self.implementations@[j].0@,
                    n as nat,
                ),
            decreases self.implementations@.len() - k,
        {
            let imp: &(Vec<Symbol>, Rc<Value>) = &(*self.implementations)[k];
            proof {
                assert(*imp == self.implementations@[k as int]);
            }
            let params: &Vec<Symbol> = &imp.0;
            let argc = params.len();
            let variadic = argc >= 2 && params[argc - 2].is_variadic_marker();
            let matched = if variadic {
                n >= argc - 2
            } else {
                n == argc
            };
            if matched {
                proof {
                    assert(variadic == is_variadic(params@));
                    assert(accepts_arity(params@, n as nat));
                    lemma_first_accepting_is(self.implementations@, n as nat, k as int);
                }
                let body: &Rc<Value> = &imp.1;
                let mut local = Environment::new_local_environment(
                    Rc::clone(&self.enclosing_environment),
                );
                if variadic {
                    let rest_sym = params[argc - 1].clone();
                    local.insert(rest_sym, Rc::new(Value::Nil));
                }
                proof {
                    assert(local.model() == prebind(
                        (*self.enclosing_environment).model(),
                        params@,
                    ));
                }
                let mut i: usize = 0;
                while i < n
                    invariant
                        n == args@.len(),
                        argc == params@.len(),
                        i <= n,
                        variadic == is_variadic(params@),
                        accepts_arity(params@, n as nat),
                        forall|j: int| 0 <= j < i ==> !(#[trigger] params@[j]).is_amp(),
                        local.model() == bind_positional(
                            prebind((*self.enclosing_environment).model(), params@),
                            params@,
                            args@,
                            i as int,
                        ),
                    decreases n - i,
                {
                    proof {
                        if variadic {
                            if i > argc - 2 {
                                assert(params@[argc - 2].is_amp());
                                assert(false);
                            }
                        }
                        assert(i < argc);
                    }
                    let cur = &params[i];
                    if cur.is_variadic_marker() {
                        proof {
                            lemma_first_amp_skip(params@, n as int, i as int);
                            assert(first_amp(params@, n as int) == Some(i as int));
                        }
                        if !variadic {
                            let r = Rc::new(error_message::invalid_marker());
                            proof {
                                assert(impl_invoke_post(
                                    params@,
                                    **body,
                                    (*self.enclosing_environment).model(),
                                    args@,
                                    *r,
                                ));
                            }
                            return r;
                        }
                        let mut rest: Vec<Rc<Value>> = Vec::new();
                        let mut t: usize = i;
                        while t < n
                            invariant
                                i <= t <= n,
                                n == args@.len(),
                                rest@ =~= args@.subrange(i as int, t as int),
                            decreases n - t,
                        {
                            rest.push(Rc::clone(&args[t]));
                            t = t + 1;
                        }
                        proof {
                            assert(rest@ =~= args@.subrange(i as int, n as int));
                        }
                        let rest_name = params[i + 1].clone();
                        let rest_rc = Rc::new(Value::PersistentList(rest));
                        local.insert(rest_name, Rc::clone(&rest_rc));
                        let r = eval(body, &local);
                        proof {
                            assert((*rest_rc) matches Value::PersistentList(l) && l@
                                == args@.subrange(i as int, n as int));
                            assert(eval_post(
                                **body,
                                bind_positional(
                                    prebind((*self.enclosing_environment).model(), params@),
                                    params@,
                                    args@,
                                    i as int,
                                ).insert(params@[i + 1].name@, *rest_rc),
                                *r,
                            ));
                            lemma_variadic_rest_intro(
                                params@,
                                &**body,
                                &*self.enclosing_environment,
                                args@,
                                &*r,
                                i as int,
                                &*rest_rc,
                            );
                        }
                        return r;
                    }
                    local.insert(cur.clone(), Rc::clone(&args[i]));
                    i = i + 1;
                }
                proof {
                    lemma_first_amp_skip(params@, n as int, n as int);
                    assert(first_amp(params@, n as int) is None);
                }
                let r = eval(body, &local);
                proof {
                    assert(impl_invoke_post(
                        params@,
                        **body,
                        (*self.enclosing_environment).model(),
                        args@,
                        *r,
                    ));
                }
                return r;
            }
            k = k + 1;
        }
        proof {
            lemma_first_accepting_none(self.implementations@, n as nat);
        }
        Rc::new(error_message::arity_dispatch())
    }

    /// This closure as a value carrying the invocable capability.
    pub fn to_value(&self) -> (r: Value)
        ensures
            (r matches Value::IFn(f) && *f matches Invocable::Lambda(g) && g == *self),
    {
        Value::IFn(Rc::new(Invocable::Lambda(self.clone())))
    }
}

impl Clone for Fn {
    fn clone(&self) -> (r: Self)
        ensures
            r == *self,
    {
        Fn {
            implementations: Rc::clone(&self.implementations),
            enclosing_environment: Rc::clone(&self.enclosing_environment),
        }
    }
}

/// Every parameter of a fixed-arity implementation is bound to the argument
/// in its position: when no later parameter repeats `params[j]`'s name, the
/// populated environment maps that name to `args[j]`.
pub proof fn lemma_bind_positional_get(
    m: Map<Seq<char>, Value>,
    params: Seq<Symbol>,
    args: Seq<Rc<Value>>,
    upto: int,
    j: int,
)
    requires
        0 <= j < upto,
        upto <= args.len(),
        upto <= params.len(),
        forall|l: int| j < l < upto ==> (#[trigger] params[l]).name@ != params[j].name@,
    ensures
        bind_positional(m, params, args, upto).contains_key(params[j].name@),
        bind_positional(m, params, args, upto)[params[j].name@] == *args[j],
    decreases upto,
{
    if j == upto - 1 {
    } else {
        lemma_bind_positional_get(m, params, args, upto - 1, j);
    }
}

/// Single fixed-arity dispatch: a closure with one
/// implementation whose parameter list holds no `&` evaluates its body under
/// the positional bindings when called with exactly as many arguments as
/// parameters, and returns the arity-mismatch condition on every other
/// argument count.
pub proof fn lemma_single_fixed_arity(f: Fn, args: Seq<Rc<Value>>, r: Value)
    requires
        f.implementations@.len() == 1,
        forall|j: int| 0 <= j < f.implementations@[0].0@.len() ==> !(
        #[trigger] f.implementations@[0].0@[j]).is_amp(),
        fn_invoke_post(f, args, r),
    ensures
        args.len() == f.implementations@[0].0@.len() ==> eval_post(
            *f.implementations@[0].1,
            bind_positional(
                (*f.enclosing_environment).model(),
                f.implementations@[0].0@,
                args,
                args.len() as int,
            ),
            r,
        ),
        args.len() != f.implementations@[0].0@.len() ==> (r matches Value::Condition(m) && m@
            == error_message::arity_dispatch_msg()),
{
    let params = f.implementations@[0].0@;
    let n = args.len();
    assert(!is_variadic(params));
    if n == params.len() {
        lemma_first_accepting_is(f.implementations@, n, 0);
        lemma_first_amp_skip(params, n as int, n as int);
        assert(first_amp(params, n as int) is None);
        assert(prebind((*f.enclosing_environment).model(), params) == (
        *f.enclosing_environment).model());
    } else {
        assert(!accepts_arity(params, n));
        lemma_first_accepting_none(f.implementations@, n);
    }
}

/// Dispatch order: when the first implementation is fixed at
/// exactly the call's arity, dispatch selects it, never a later (for
/// instance variadic) implementation that would also accept the call.
pub proof fn lemma_dispatch_prefers_first(f: Fn, args: Seq<Rc<Value>>, r: Value)
    requires
        f.implementations@.len() >= 1,
        !is_variadic(f.implementations@[0].0@),
        f.implementations@[0].0@.len() == args.len(),
        fn_invoke_post(f, args, r),
    ensures
        impl_invoke_post(
            f.implementations@[0].0@,
            *f.implementations@[0].1,
            (*f.enclosing_environment).model(),
            args,
            r,
        ),
{
    lemma_first_accepting_is(f.implementations@, args.len(), 0);
}

} // verus!
