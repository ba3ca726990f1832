use std::rc::Rc;

use clojure_core::rust_core::ConjFn;
use clojure_core::value::Value;

fn int_vector(items: &[i32]) -> Value {
    let mut elems: Vec<Rc<Value>> = Vec::new();
    for i in items {
        elems.push(Rc::new(Value::I32(*i)));
    }
    Value::PersistentVector(elems)
}

#[test]
fn conj_appends_one_item() {
    let coll = Rc::new(int_vector(&[1, 2]));
    let conj = ConjFn {};

    let val = conj.invoke(vec![Rc::clone(&coll), Rc::new(Value::I32(3))]);
    assert_eq!(*val, int_vector(&[1, 2, 3]));

    // The original vector value is unaffected by the call.
    assert_eq!(*coll, int_vector(&[1, 2]));
}

#[test]
fn conj_appends_in_argument_order() {
    let coll = Rc::new(int_vector(&[1, 2]));
    let conj = ConjFn {};

    let val = conj.invoke(vec![
        Rc::clone(&coll),
        Rc::new(Value::I32(3)),
        Rc::new(Value::I32(4)),
    ]);
    assert_eq!(*val, int_vector(&[1, 2, 3, 4]));
    assert_eq!(*coll, int_vector(&[1, 2]));
}

#[test]
fn conj_on_non_vector_is_type_mismatch() {
    let conj = ConjFn {};

    let val = conj.invoke(vec![Rc::new(Value::I32(1)), Rc::new(Value::I32(2))]);
    assert_eq!(
        *val,
        Value::Condition(
            "Type mismatch; Expected instance of PersistentVector, Received type I32".to_string()
        )
    );
}

#[test]
fn conj_with_too_few_arguments_is_arity_mismatch() {
    let conj = ConjFn {};

    let val = conj.invoke(vec![Rc::new(int_vector(&[1]))]);
    assert_eq!(
        *val,
        Value::Condition(
            "Wrong number of arguments given to function (Given: 1, Expected: 2)".to_string()
        )
    );

    let val = conj.invoke(vec![]);
    assert_eq!(
        *val,
        Value::Condition(
            "Wrong number of arguments given to function (Given: 0, Expected: 2)".to_string()
        )
    );
}

#[test]
fn conj_on_empty_vector() {
    let conj = ConjFn {};

    let val = conj.invoke(vec![Rc::new(int_vector(&[])), Rc::new(Value::I32(7))]);
    assert_eq!(*val, int_vector(&[7]));
}
