use vstd::prelude::*;
use vstd::string::StringExecFns;

verus! {

/// The tag of a runtime value's variant, used in diagnostic messages.
#[derive(Debug, Clone, Copy, PartialEq, Eq, Structural)]
pub enum TypeTag {
    Nil,
    I32,
    String,
    Symbol,
    IFn,
    PersistentList,
    PersistentVector,
    PersistentMap,
    LazySequence,
    Condition,
}

impl TypeTag {
    /// The tag's printed name.
    pub open spec fn name_seq(self) -> Seq<char> {
        match self {
            TypeTag::Nil => "Nil"@,
            TypeTag::I32 => "I32"@,
            TypeTag::String => "String"@,
            TypeTag::Symbol => "Symbol"@,
            TypeTag::IFn => "IFn"@,
            TypeTag::PersistentList => "PersistentList"@,
            TypeTag::PersistentVector => "PersistentVector"@,
            TypeTag::PersistentMap => "PersistentMap"@,
            TypeTag::LazySequence => "LazySequence"@,
            TypeTag::Condition => "Condition"@,
        }
    }

    /// The tag's printed name.
    pub fn name(&self) -> (r: String)
        ensures
            r@ == self.name_seq(),
    {
        match self {
            TypeTag::Nil => String::from_str("Nil"),
            TypeTag::I32 => String::from_str("I32"),
            TypeTag::String => String::from_str("String"),
            TypeTag::Symbol => String::from_str("Symbol"),
            TypeTag::IFn => String::from_str("IFn"),
            TypeTag::PersistentList => String::from_str("PersistentList"),
            TypeTag::PersistentVector => String::from_str("PersistentVector"),
            TypeTag::PersistentMap => String::from_str("PersistentMap"),
            TypeTag::LazySequence => String::from_str("LazySequence"),
            TypeTag::Condition => String::from_str("Condition"),
        }
    }
}

} // verus!
