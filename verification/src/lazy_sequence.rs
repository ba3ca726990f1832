use vstd::prelude::*;
use std::rc::Rc;

use crate::ifn;
use crate::value::Value;

verus! {

/// A lazy sequence node: the realized current element paired with a step
/// function (an invocable from the current element to the next). The
/// structure has no terminal state — a consumer imposes its own stopping
/// condition — and performs no caching: re-traversing from an earlier node
/// recomputes every step, so sharing a node never shares hidden mutable
/// state.
#[derive(Debug, PartialEq)]
pub struct LazySequence {
    pub cons: Rc<Value>,
    pub next: Rc<Value>,
}

impl LazySequence {
    /// Invariant: the stored step value carries the invocable capability.
    pub open spec fn well_formed(self) -> bool {
        (*self.next) matches Value::IFn(_)
    }

    /// Pair `cons` with the step function `calc`; yields nothing when `calc`
    /// is not invocable (the calling builtin turns that absence into a
    /// user-visible condition).
    pub fn new(cons: Rc<Value>, calc: Rc<Value>) -> (r: Option<LazySequence>)
        ensures
            match r {
                Some(ls) => ls.cons == cons && ls.next == calc && ls.well_formed(),
                None => !((*calc) matches Value::IFn(_)),
            },
    {
        if let Value::IFn(_) = &*calc {
            Some(LazySequence { cons, next: calc })
        } else {
            None
        }
    }
}

impl Clone for LazySequence {
    fn clone(&self) -> (r: Self)
        ensures
            r == *self,
    {
        LazySequence { cons: Rc::clone(&self.cons), next: Rc::clone(&self.next) }
    }
}

/// One step of traversal: the freshly computed element `c` is what the
/// stored step function returns for the node's current element.
pub open spec fn step_post(node: LazySequence, c: Value) -> bool {
    match *node.next {
        Value::IFn(f) => ifn::invoke_post(*f, seq![node.cons], c),
        _ => false,
    }
}

/// The element `ind` steps past `node`: element 0 is the node's own `cons`,
/// and each further element is reached through one application of the step
/// function.
pub open spec fn nth_post(node: LazySequence, ind: nat, r: Value) -> bool
    decreases ind,
{
    if ind == 0 {
        r == *node.cons
    } else {
        exists|mid: LazySequence|
            #![auto]
            mid.next == node.next && step_post(node, *mid.cons) && nth_post(
                mid,
                (ind - 1) as nat,
                r,
            )
    }
}

/// A step prefixed to a traversal extends it by one element.
proof fn lemma_nth_step(node: &LazySequence, mid: &LazySequence, k: nat, r: &Value)
    requires
        mid.next == node.next,
        step_post(*node, *mid.cons),
        nth_post(*mid, k, *r),
    ensures
        nth_post(*node, k + 1, *r),
{
    let kk: nat = (k + 1) as nat;
    assert((kk - 1) as nat == k);
    assert(nth_post(*mid, (kk - 1) as nat, *r));
}

/// Over the integer-successor step, the element `k` steps past a node
/// holding `c` is exactly `c + k`: every element is a pure function of the
/// starting node, so traversals begun independently from the same node agree
/// at every position — the structure shares no hidden mutable cache.
pub proof fn lemma_inc_sequence_elements(node: LazySequence, c: i32, k: nat, r: Value)
    requires
        ((*node.next) matches Value::IFn(f) && (*f) matches ifn::Invocable::Inc(_)),
        *node.cons == Value::I32(c),
        c + k <= i32::MAX,
        nth_post(node, k, r),
    ensures
        r == Value::I32((c + k) as i32),
    decreases k,
{
    if k == 0 {
    } else {
        let mid = choose|mid: LazySequence|
            mid.next == node.next && step_post(node, *mid.cons) && nth_post(
                mid,
                (k - 1) as nat,
                r,
            );
        assert(*mid.cons == Value::I32((c + 1) as i32));
        lemma_inc_sequence_elements(mid, (c + 1) as i32, (k - 1) as nat, r);
    }
}

/// A pull-based view over a lazy sequence: each advance emits the current
/// element and moves to a fresh node pairing the newly computed element with
/// the same step function.
#[derive(Debug, PartialEq)]
pub struct LazySequenceIter {
    pub list: Rc<LazySequence>,
}

impl LazySequenceIter {
    /// Emit the current element and advance: the step function is invoked on
    /// the current element, and the freshly computed value becomes the new
    /// node's element. Nothing is cached — an iterator started earlier will
    /// recompute the same steps independently.
    pub fn next(&mut self) -> (r: Rc<Value>)
        requires
            (*old(self).list).well_formed(),
        ensures
            r == old(self).list.cons,
            final(self).list.next == old(self).list.next,
            (*final(self).list).well_formed(),
            step_post(*old(self).list, *final(self).list.cons),
    {
        let node = Rc::clone(&self.list);
        let emitted = Rc::clone(&node.cons);
        match &*node.next {
            Value::IFn(f) => {
                let mut call_args: Vec<Rc<Value>> = Vec::new();
                call_args.push(Rc::clone(&node.cons));
                proof {
                    assert(call_args@ =~= seq![node.cons]);
                }
                let next_val = f.invoke(call_args);
                proof {
                    assert(step_post(*node, *next_val));
                }
                self.list = Rc::new(
                    LazySequence { cons: next_val, next: Rc::clone(&node.next) },
                );
                emitted
            },
            _ => {
                proof {
                    assert(false);
                }
                emitted
            },
        }
    }
}

/// Anything that designates a lazy-sequence node can open an iterator on it.
pub trait ToLazySequenceIter {
    /// The node this value designates.
    spec fn node(&self) -> LazySequence;

    /// An iterator positioned at this node.
    fn iter(&self) -> (it: LazySequenceIter)
        ensures
            it.list == self.node(),
    ;

    /// The element `ind` steps past this node, realized on demand by
    /// repeatedly applying the step function.
    fn nth(&self, ind: usize) -> (r: Rc<Value>)
        requires
            self.node().well_formed(),
        ensures
            nth_post(self.node(), ind as nat, *r),
    {
        let mut it = self.iter();
        let ghost orig = self.node();
        let mut j: usize = 0;
        while j < ind
            invariant
                j <= ind,
                (*it.list).well_formed(),
                forall|r: Value|
                    nth_post(*it.list, (ind - j) as nat, r) ==> #[trigger] nth_post(
                        orig,
                        ind as nat,
                        r,
                    ),
            decreases ind - j,
        {
            let prev_rc = Rc::clone(&it.list);
            let _ = it.next();
            proof {
                assert forall|r: Value|
                    nth_post(*it.list, (ind - j - 1) as nat, r) implies #[trigger] nth_post(
                    orig,
                    ind as nat,
                    r,
                ) by {
                    lemma_nth_step(&*prev_rc, &*it.list, (ind - j - 1) as nat, &r);
                }
            }
            j = j + 1;
        }
        it.next()
    }
}

impl ToLazySequenceIter for Rc<LazySequence> {
    open spec fn node(&self) -> LazySequence {
        **self
    }

    fn iter(&self) -> (it: LazySequenceIter) {
        LazySequenceIter { list: Rc::clone(self) }
    }
}

impl ToLazySequenceIter for LazySequence {
    open spec fn node(&self) -> LazySequence {
        *self
    }

    fn iter(&self) -> (it: LazySequenceIter) {
        LazySequenceIter { list: Rc::new(self.clone()) }
    }
}

} // verus!
