use std::rc::Rc;

use clojure_core::environment::Environment;
use clojure_core::lambda;
use clojure_core::symbol::Symbol;
use clojure_core::value::Value;

fn base_environment() -> Rc<Environment> {
    Rc::new(Environment::new_local_environment(Rc::new(Environment::new())))
}

#[test]
fn test_only_vararg() {
    // (defn func [& vararg] "Works")
    let func = lambda::Fn {
        implementations: Rc::new(vec![(
            vec![Symbol::intern("&"), Symbol::intern("varargs")],
            Rc::new(Value::String(String::from("Works"))),
        )]),
        enclosing_environment: base_environment(),
    };

    let val = func.invoke(vec![]); // (func)
    assert_eq!(*val, Value::String("Works".to_string()));

    let val = func.invoke(vec![Rc::new(Value::I32(1_i32))]); // (func 1)
    assert_eq!(*val, Value::String("Works".to_string()));

    // (func 1 2)
    let val = func.invoke(vec![Rc::new(Value::I32(1_i32)), Rc::new(Value::I32(2_i32))]);
    assert_eq!(*val, Value::String("Works".to_string()));
}

#[test]
fn test_vararg_one() {
    // (defn func [x & vararg] "Works")
    let func = lambda::Fn {
        implementations: Rc::new(vec![(
            vec![Symbol::intern("x"), Symbol::intern("&"), Symbol::intern("varargs")],
            Rc::new(Value::String(String::from("Works"))),
        )]),
        enclosing_environment: base_environment(),
    };

    let val = func.invoke(vec![]); // (func)
    assert_eq!(
        *val,
        Value::Condition("Wrong number of arguments given to function".to_string())
    );

    let val = func.invoke(vec![Rc::new(Value::I32(1_i32))]); // (func 1)
    assert_eq!(*val, Value::String("Works".to_string()));

    // (func 1 2)
    let val = func.invoke(vec![Rc::new(Value::I32(1_i32)), Rc::new(Value::I32(2_i32))]);
    assert_eq!(*val, Value::String("Works".to_string()));
}

#[test]
fn test_vararg_two() {
    // (defn func [x y & vararg] "Works")
    let func = lambda::Fn {
        implementations: Rc::new(vec![(
            vec![
                Symbol::intern("x"),
                Symbol::intern("y"),
                Symbol::intern("&"),
                Symbol::intern("varargs"),
            ],
            Rc::new(Value::String(String::from("Works"))),
        )]),
        enclosing_environment: base_environment(),
    };

    let val = func.invoke(vec![]); // (func)
    assert_eq!(
        *val,
        Value::Condition("Wrong number of arguments given to function".to_string())
    );

    let val = func.invoke(vec![Rc::new(Value::I32(1_i32))]); // (func 1)
    assert_eq!(
        *val,
        Value::Condition("Wrong number of arguments given to function".to_string())
    );

    // (func 1 2)
    let val = func.invoke(vec![Rc::new(Value::I32(1_i32)), Rc::new(Value::I32(2_i32))]);
    assert_eq!(*val, Value::String("Works".to_string()));

    // (func 1 2 "vararg here")
    let val = func.invoke(vec![
        Rc::new(Value::I32(1_i32)),
        Rc::new(Value::I32(2_i32)),
        Rc::new(Value::String(String::from("vararg here"))),
    ]);
    assert_eq!(*val, Value::String("Works".to_string()));
}

#[test]
fn fixed_arity_binds_each_parameter() {
    // (fn [a b] b) called with (10 20) evaluates the body symbol to 20.
    let func = lambda::Fn {
        implementations: Rc::new(vec![(
            vec![Symbol::intern("a"), Symbol::intern("b")],
            Rc::new(Value::Symbol(Symbol::intern("b"))),
        )]),
        enclosing_environment: base_environment(),
    };

    let val = func.invoke(vec![Rc::new(Value::I32(10)), Rc::new(Value::I32(20))]);
    assert_eq!(*val, Value::I32(20));

    let val = func.invoke(vec![Rc::new(Value::I32(10))]);
    assert_eq!(
        *val,
        Value::Condition("Wrong number of arguments given to function".to_string())
    );

    let val = func.invoke(vec![
        Rc::new(Value::I32(10)),
        Rc::new(Value::I32(20)),
        Rc::new(Value::I32(30)),
    ]);
    assert_eq!(
        *val,
        Value::Condition("Wrong number of arguments given to function".to_string())
    );
}

#[test]
fn variadic_rest_binding() {
    // (fn [x & rest] rest)
    let func = lambda::Fn {
        implementations: Rc::new(vec![(
            vec![Symbol::intern("x"), Symbol::intern("&"), Symbol::intern("rest")],
            Rc::new(Value::Symbol(Symbol::intern("rest"))),
        )]),
        enclosing_environment: base_environment(),
    };

    // Zero arguments: rejected by the arity test.
    let val = func.invoke(vec![]);
    assert_eq!(
        *val,
        Value::Condition("Wrong number of arguments given to function".to_string())
    );

    // One argument: no variadic argument remains, rest keeps its Nil pre-binding.
    let val = func.invoke(vec![Rc::new(Value::I32(1))]);
    assert_eq!(*val, Value::Nil);

    // Three arguments: rest collects (2 3).
    let val = func.invoke(vec![
        Rc::new(Value::I32(1)),
        Rc::new(Value::I32(2)),
        Rc::new(Value::I32(3)),
    ]);
    assert_eq!(
        *val,
        Value::PersistentList(vec![Rc::new(Value::I32(2)), Rc::new(Value::I32(3))])
    );
}

#[test]
fn variadic_positional_binding() {
    // (fn [x & rest] x) invoked with (1 2 3) binds x to 1.
    let func = lambda::Fn {
        implementations: Rc::new(vec![(
            vec![Symbol::intern("x"), Symbol::intern("&"), Symbol::intern("rest")],
            Rc::new(Value::Symbol(Symbol::intern("x"))),
        )]),
        enclosing_environment: base_environment(),
    };

    let val = func.invoke(vec![
        Rc::new(Value::I32(1)),
        Rc::new(Value::I32(2)),
        Rc::new(Value::I32(3)),
    ]);
    assert_eq!(*val, Value::I32(1));
}

#[test]
fn dispatch_prefers_first_implementation() {
    // Implementations: fixed arity 2, then variadic accepting any count.
    // A two-argument call always selects the first.
    let func = lambda::Fn {
        implementations: Rc::new(vec![
            (
                vec![Symbol::intern("a"), Symbol::intern("b")],
                Rc::new(Value::String(String::from("first"))),
            ),
            (
                vec![Symbol::intern("&"), Symbol::intern("rest")],
                Rc::new(Value::String(String::from("second"))),
            ),
        ]),
        enclosing_environment: base_environment(),
    };

    let val = func.invoke(vec![Rc::new(Value::I32(1)), Rc::new(Value::I32(2))]);
    assert_eq!(*val, Value::String("first".to_string()));

    // Any other count falls through to the variadic implementation.
    let val = func.invoke(vec![Rc::new(Value::I32(1))]);
    assert_eq!(*val, Value::String("second".to_string()));
}

#[test]
fn invalid_marker_in_fixed_implementation() {
    // (fn [a &] ...) is not variadic (the marker is last), so meeting `&`
    // while binding is an invalid-marker condition.
    let func = lambda::Fn {
        implementations: Rc::new(vec![(
            vec![Symbol::intern("a"), Symbol::intern("&")],
            Rc::new(Value::String(String::from("unreachable body"))),
        )]),
        enclosing_environment: base_environment(),
    };

    let val = func.invoke(vec![Rc::new(Value::I32(1)), Rc::new(Value::I32(2))]);
    assert_eq!(
        *val,
        Value::Condition(
            "Invalid function argument '&' in non-variable-argument function definition"
                .to_string()
        )
    );
}

#[test]
fn empty_implementation_list_is_arity_mismatch() {
    let func = lambda::Fn {
        implementations: Rc::new(vec![]),
        enclosing_environment: base_environment(),
    };

    let val = func.invoke(vec![Rc::new(Value::I32(1))]);
    assert_eq!(
        *val,
        Value::Condition("Wrong number of arguments given to function".to_string())
    );
}

#[test]
fn single_amp_is_not_variadic() {
    // A one-symbol list [&] is never variadic: a one-argument call hits the
    // marker and is rejected as an invalid marker, and the arity test only
    // accepts exactly one argument.
    let func = lambda::Fn {
        implementations: Rc::new(vec![(
            vec![Symbol::intern("&")],
            Rc::new(Value::String(String::from("unreachable body"))),
        )]),
        enclosing_environment: base_environment(),
    };

    let val = func.invoke(vec![]);
    assert_eq!(
        *val,
        Value::Condition("Wrong number of arguments given to function".to_string())
    );

    let val = func.invoke(vec![Rc::new(Value::I32(1))]);
    assert_eq!(
        *val,
        Value::Condition(
            "Invalid function argument '&' in non-variable-argument function definition"
                .to_string()
        )
    );
}

#[test]
fn closure_body_sees_captured_environment() {
    // A closure whose body is a free symbol resolves it in the captured
    // environment.
    let mut root = Environment::new();
    root.insert(Symbol::intern("greeting"), Rc::new(Value::String("hi".to_string())));
    let func = lambda::Fn {
        implementations: Rc::new(vec![(
            vec![],
            Rc::new(Value::Symbol(Symbol::intern("greeting"))),
        )]),
        enclosing_environment: Rc::new(root),
    };

    let val = func.invoke(vec![]);
    assert_eq!(*val, Value::String("hi".to_string()));
}
