use vstd::prelude::*;

verus! {

/// An interned, comparable identifier. Symbols name bindings in the
/// environment chain and, as the literal `&`, mark the rest parameter of a
/// variadic parameter list.
#[derive(Debug, PartialEq, Eq)]
pub struct Symbol {
    pub name: String,
}

impl Symbol {
    /// Whether this symbol is the literal variadic marker `&`.
    pub open spec fn is_amp(self) -> bool {
        self.name@ == "&"@
    }

    pub fn intern(name: &str) -> (s: Symbol)
        ensures
            s.name@ == name@,
    {
        Symbol { name: name.to_owned() }
    }

    /// True exactly when this symbol is the literal variadic marker `&`.
    pub fn is_variadic_marker(&self) -> (b: bool)
        ensures
            b == self.is_amp(),
    {
        self.name == "&".to_owned()
    }

    /// True exactly when the two symbols spell the same name.
    pub fn same_name(&self, other: &Symbol) -> (b: bool)
        ensures
            b == (self.name@ == other.name@),
    {
        self.name == other.name
    }
}

impl Clone for Symbol {
    fn clone(&self) -> (s: Self)
        ensures
            s == *self,
    {
        Symbol { name: self.name.clone() }
    }
}

} // verus!
