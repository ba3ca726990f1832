use vstd::prelude::*;
use std::rc::Rc;

use crate::symbol::Symbol;
use crate::value::Value;

verus! {

/// One frame of the lexical environment chain: local bindings plus an
/// optional parent frame. A child's parent is fixed at creation, so the chain
/// is acyclic; frames are shared by reference, which gives closures O(1)
/// capture.
#[derive(Debug, PartialEq)]
pub struct Environment {
    pub bindings: Vec<(Symbol, Rc<Value>)>,
    pub parent: Option<Rc<Environment>>,
}

/// The mapping a frame's local bindings lay over `base`: later insertions of
/// the same name win.
pub open spec fn frame_extend(
    base: Map<Seq<char>, Value>,
    bs: Seq<(Symbol, Rc<Value>)>,
) -> Map<Seq<char>, Value>
    decreases bs.len(),
{
    if bs.len() == 0 {
        base
    } else {
        frame_extend(base, bs.drop_last()).insert(bs.last().0.name@, *bs.last().1)
    }
}

/// The nearest local binding of `name`, searching the most recent insertion
/// first.
pub open spec fn frame_find(bs: Seq<(Symbol, Rc<Value>)>, name: Seq<char>) -> Option<Value>
    decreases bs.len(),
{
    if bs.len() == 0 {
        None
    } else if bs.last().0.name@ == name {
        Some(*bs.last().1)
    } else {
        frame_find(bs.drop_last(), name)
    }
}

/// `frame_extend` agrees with the most-recent-first search `frame_find`.
pub proof fn lemma_frame_extend_find(
    base: Map<Seq<char>, Value>,
    bs: Seq<(Symbol, Rc<Value>)>,
    name: Seq<char>,
)
    ensures
        match frame_find(bs, name) {
            Some(v) => frame_extend(base, bs).contains_key(name) && frame_extend(base, bs)[name]
                == v,
            None => frame_extend(base, bs).contains_key(name) == base.contains_key(name) && (
            base.contains_key(name) ==> frame_extend(base, bs)[name] == base[name]),
        },
    decreases bs.len(),
{
    if bs.len() > 0 {
        lemma_frame_extend_find(base, bs.drop_last(), name);
    }
}

impl Environment {
    /// Every binding visible from this frame: the parent's bindings,
    /// overridden by the local frame's.
    pub open spec fn model(self) -> Map<Seq<char>, Value>
        decreases self,
    {
        let base = match self.parent {
            None => Map::<Seq<char>, Value>::empty(),
            Some(p) => (*p).model(),
        };
        frame_extend(base, self.bindings@)
    }

    /// An empty root frame.
    pub fn new() -> (e: Environment)
        ensures
            e.bindings@ =~= Seq::<(Symbol, Rc<Value>)>::empty(),
            e.parent is None,
            e.model() =~= Map::<Seq<char>, Value>::empty(),
    {
        Environment { bindings: Vec::new(), parent: None }
    }

    /// A new empty frame whose parent is `parent` (shared, not copied).
    pub fn new_local_environment(parent: Rc<Environment>) -> (e: Environment)
        ensures
            e.bindings@ =~= Seq::<(Symbol, Rc<Value>)>::empty(),
            e.parent == Some(parent),
            e.model() == (*parent).model(),
    {
        Environment { bindings: Vec::new(), parent: Some(parent) }
    }

    /// Bind `sym` to `val` in the local frame, shadowing any existing binding
    /// of the same name here or in outer frames. Parent frames are never
    /// altered.
    pub fn insert(&mut self, sym: Symbol, val: Rc<Value>)
        ensures
            final(self).parent == old(self).parent,
            final(self).bindings@ == old(self).bindings@.push((sym, val)),
            final(self).model() == old(self).model().insert(sym.name@, *val),
    {
        let ghost pre = self.bindings@;
        self.bindings.push((sym, val));
        proof {
            assert(self.bindings@.drop_last() =~= pre);
        }
    }

    /// The nearest binding of `sym`, walking the chain from this frame to the
    /// root; `None` when no frame in the chain binds it.
    pub fn lookup(&self, sym: &Symbol) -> (r: Option<Rc<Value>>)
        ensures
            match r {
                Some(v) => self.model().contains_key(sym.name@) && *v == self.model()[sym.name@],
                None => !self.model().contains_key(sym.name@),
            },
        decreases *self,
    {
        let ghost key = sym.name@;
        let mut i: usize = self.bindings.len();
        proof {
            assert(self.bindings@.subrange(0, i as int) =~= self.bindings@);
        }
        while i > 0
            invariant
                i <= self.bindings@.len(),
                frame_find(self.bindings@.subrange(0, i as int), key) == frame_find(
                    self.bindings@,
                    key,
                ),
                key == sym.name@,
            decreases i,
        {
            i = i - 1;
            let ghost pref = self.bindings@.subrange(0, i as int + 1);
            let pair = &self.bindings[i];
            if pair.0.same_name(sym) {
                proof {
                    assert(pref.last() == self.bindings@[i as int]);
                    lemma_frame_extend_find(self.base_model(), self.bindings@, key);
                }
                return Some(Rc::clone(&pair.1));
            }
            proof {
                assert(pref.drop_last() =~= self.bindings@.subrange(0, i as int));
            }
        }
        proof {
            assert(self.bindings@.subrange(0, 0) =~= Seq::<(Symbol, Rc<Value>)>::empty());
            lemma_frame_extend_find(self.base_model(), self.bindings@, key);
        }
        match &self.parent {
            Some(p) => p.lookup(sym),
            None => None,
        }
    }

    /// The bindings the parent chain contributes, before the local frame.
    pub open spec fn base_model(self) -> Map<Seq<char>, Value> {
        match self.parent {
            None => Map::<Seq<char>, Value>::empty(),
            Some(p) => (*p).model(),
        }
    }
}

/// A binding in the local frame wins over any binding of the same name in
/// outer frames: the visible mapping takes its value from the local frame.
pub proof fn lemma_child_shadowing(child: Environment, name: Seq<char>, v: Value)
    requires
        frame_find(child.bindings@, name) == Some(v),
    ensures
        child.model().contains_key(name),
        child.model()[name] == v,
{
    lemma_frame_extend_find(child.base_model(), child.bindings@, name);
}

} // verus!
