//! Names shared across the whole translation: identifiers and the per-module
//! symbol registry.

use vstd::prelude::*;

verus! {

/// Equality of two string slices, decided by comparing owned copies.
pub fn str_eq(a: &str, b: &str) -> (r: bool)
    ensures
        r == (a@ == b@),
{
    let x = a.to_owned();
    let y = b.to_owned();
    x == y
}

/// An owned, comparable name for a function, parameter, or struct type.
#[derive(Debug, Clone, PartialEq, Eq, PartialOrd, Ord, Hash)]
pub struct Identifier {
    pub name: String,
}

impl View for Identifier {
    type V = Seq<char>;

    open spec fn view(&self) -> Seq<char> {
        self.name@
    }
}

impl Identifier {
    /// Wrap an owned string as an identifier.
    pub fn new(name: String) -> (r: Self)
        ensures
            r@ == name@,
    {
        Identifier { name }
    }

    /// The identifier's text.
    pub fn as_str(&self) -> (r: &str)
        ensures
            r@ == self@,
    {
        self.name.as_str()
    }

    /// An owned copy whose view equals this identifier's view.
    pub fn duplicate(&self) -> (r: Self)
        ensures
            r@ == self@,
    {
        Identifier { name: self.name.clone() }
    }

    /// Whether the two identifiers carry the same text.
    pub fn matches(&self, other: &Identifier) -> (r: bool)
        ensures
            r == (self@ == other@),
    {
        self.name == other.name
    }
}

/// The set of function names declared by a module, consulted when a constant
/// refers to a function by name.  Built once per module, read-only afterward.
#[derive(Debug, Clone, PartialEq, Eq)]
pub struct SymbolRegistry {
    pub functions: Vec<Identifier>,
}

impl View for SymbolRegistry {
    type V = Seq<Seq<char>>;

    open spec fn view(&self) -> Seq<Seq<char>> {
        Seq::new(self.functions@.len(), |i: int| self.functions@[i]@)
    }
}

impl SymbolRegistry {
    /// A registry with no symbols.
    pub fn empty() -> (r: Self)
        ensures
            r@ == Seq::<Seq<char>>::empty(),
    {
        let r = SymbolRegistry { functions: Vec::new() };
        proof {
            assert(r@ =~= Seq::<Seq<char>>::empty());
        }
        r
    }

    /// Record one more function name.
    pub fn add_function(&mut self, name: Identifier)
        ensures
            final(self)@ == old(self)@.push(name@),
    {
        let ghost prev = self@;
        self.functions.push(name);
        proof {
            assert(self@ =~= prev.push(name@));
        }
    }

    /// Whether a function with the given name is known to the registry.
    pub fn has_function(&self, name: &Identifier) -> (r: bool)
        ensures
            r == self@.contains(name@),
    {
        let n = self.functions.len();
        for i in 0..n
            invariant
                n == self.functions@.len(),
                forall|j: int| 0 <= j < i ==> self@[j] != name@,
        {
            if self.functions[i].matches(name) {
                assert(self@[i as int] == name@);
                return true;
            }
        }
        proof {
            assert forall|j: int| 0 <= j < self@.len() implies self@[j] != name@ by {}
            assert(!self@.contains(name@));
        }
        false
    }
}

} // verus!
