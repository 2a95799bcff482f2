use vstd::prelude::*;

verus! {

/// A named storage location: a read-only constant or a writable variable.
/// The two kinds live in disjoint namespaces.
#[derive(Debug, Clone, PartialEq)]
pub enum MemLoc {
    Const(String),
    Var(String),
}

impl MemLoc {
    /// The location's name, whatever its kind.
    pub open spec fn name(&self) -> Seq<char> {
        match self {
            MemLoc::Const(n) => n@,
            MemLoc::Var(n) => n@,
        }
    }

    pub fn reserve_const(value: String) -> (r: Self)
        ensures
            r == MemLoc::Const(value),
    {
        MemLoc::Const(value)
    }

    pub fn reserve_var(value: String) -> (r: Self)
        ensures
            r == MemLoc::Var(value),
    {
        MemLoc::Var(value)
    }

    pub fn ident(&self) -> (r: &str)
        ensures
            r@ == self.name(),
    {
        match self {
            MemLoc::Const(value) => value.as_str(),
            MemLoc::Var(value) => value.as_str(),
        }
    }

    /// A copy of this location.
    pub fn duplicate(&self) -> (r: Self)
        ensures
            r == *self,
    {
        match self {
            MemLoc::Const(value) => MemLoc::Const(value.clone()),
            MemLoc::Var(value) => MemLoc::Var(value.clone()),
        }
    }
}

} // verus!
