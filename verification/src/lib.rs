//! Core of a small Clojure-like language runtime: a dynamically typed value
//! model, a lexically scoped environment chain, multi-arity closure dispatch
//! with variadic binding, persistent (immutable) collection operations, and an
//! on-demand lazy sequence protocol.
//!
//! Failures surface as first-class `Condition` values, never as panics: every
//! operation returns a `Value`, and callers branch on its tag.

pub mod environment;
pub mod error_message;
pub mod ifn;
pub mod lambda;
pub mod lazy_sequence;
pub mod rust_core;
pub mod symbol;
pub mod type_tag;
pub mod value;
