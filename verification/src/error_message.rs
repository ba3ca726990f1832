use vstd::prelude::*;
use vstd::string::StringExecFns;

use crate::type_tag::TypeTag;
use crate::value::Value;

verus! {

/// Decimal digit `d` written as a character sequence.
pub open spec fn digit_seq(d: nat) -> Seq<char> {
    if d == 0 {
        "0"@
    } else if d == 1 {
        "1"@
    } else if d == 2 {
        "2"@
    } else if d == 3 {
        "3"@
    } else if d == 4 {
        "4"@
    } else if d == 5 {
        "5"@
    } else if d == 6 {
        "6"@
    } else if d == 7 {
        "7"@
    } else if d == 8 {
        "8"@
    } else {
        "9"@
    }
}

/// `n` written in decimal notation.
pub open spec fn decimal_seq(n: nat) -> Seq<char>
    decreases n,
{
    if n < 10 {
        digit_seq(n)
    } else {
        decimal_seq(n / 10) + digit_seq(n % 10)
    }
}

fn digit_str(d: usize) -> (r: &'static str)
    requires
        d < 10,
    ensures
        r@ == digit_seq(d as nat),
{
    match d {
        0 => "0",
        1 => "1",
        2 => "2",
        3 => "3",
        4 => "4",
        5 => "5",
        6 => "6",
        7 => "7",
        8 => "8",
        _ => "9",
    }
}

/// `n` written in decimal notation.
pub fn decimal_string(n: usize) -> (r: String)
    ensures
        r@ == decimal_seq(n as nat),
    decreases n,
{
    if n < 10 {
        String::from_str(digit_str(n))
    } else {
        let mut s = decimal_string(n / 10);
        s.append(digit_str(n % 10));
        s
    }
}

/// Message of the condition returned when no implementation of a closure
/// accepts the call's argument count.
pub open spec fn arity_dispatch_msg() -> Seq<char> {
    "Wrong number of arguments given to function"@
}

/// Condition reporting that no implementation accepted the call's arity.
pub fn arity_dispatch() -> (r: Value)
    ensures
        (r matches Value::Condition(m) && m@ == arity_dispatch_msg()),
{
    Value::Condition(String::from_str("Wrong number of arguments given to function"))
}

/// Message of the condition returned when a builtin receives `given`
/// arguments instead of the `expected` count.
pub open spec fn wrong_arg_count_msg(expected: nat, given: nat) -> Seq<char> {
    "Wrong number of arguments given to function (Given: "@ + decimal_seq(given) + ", Expected: "@
        + decimal_seq(expected) + ")"@
}

/// Condition reporting a wrong argument count to a builtin.
pub fn wrong_arg_count(expected: usize, given: usize) -> (r: Value)
    ensures
        (r matches Value::Condition(m) && m@ == wrong_arg_count_msg(
            expected as nat,
            given as nat,
        )),
{
    let mut m = String::from_str("Wrong number of arguments given to function (Given: ");
    let g = decimal_string(given);
    m.append(g.as_str());
    m.append(", Expected: ");
    let e = decimal_string(expected);
    m.append(e.as_str());
    m.append(")");
    Value::Condition(m)
}

/// Message of the condition returned when an operation receives a value of
/// the wrong variant.
pub open spec fn type_mismatch_msg(expected: Seq<char>, got: Seq<char>) -> Seq<char> {
    "Type mismatch; Expected instance of "@ + expected + ", Received type "@ + got
}

/// Condition reporting that `actual` does not carry the `expected` variant.
pub fn type_mismatch(expected: TypeTag, actual: &Value) -> (r: Value)
    ensures
        (r matches Value::Condition(m) && m@ == type_mismatch_msg(
            expected.name_seq(),
            actual.spec_tag().name_seq(),
        )),
{
    let mut m = String::from_str("Type mismatch; Expected instance of ");
    let e = expected.name();
    m.append(e.as_str());
    m.append(", Received type ");
    let g = actual.type_tag().name();
    m.append(g.as_str());
    Value::Condition(m)
}

/// Message of the condition returned when an environment lookup exhausts the
/// frame chain without finding a binding for `name`.
pub open spec fn unbound_symbol_msg(name: Seq<char>) -> Seq<char> {
    "Undefined symbol: "@ + name
}

/// Message of the condition returned when the `&` marker appears in a
/// non-variadic implementation's parameter list.
pub open spec fn invalid_marker_msg() -> Seq<char> {
    "Invalid function argument '&' in non-variable-argument function definition"@
}

/// Condition reporting a misplaced `&` marker.
pub fn invalid_marker() -> (r: Value)
    ensures
        (r matches Value::Condition(m) && m@ == invalid_marker_msg()),
{
    Value::Condition(
        String::from_str(
            "Invalid function argument '&' in non-variable-argument function definition",
        ),
    )
}

/// Message of the condition returned when an integer operation overflows.
pub open spec fn overflow_msg() -> Seq<char> {
    "Integer overflow"@
}

} // verus!
