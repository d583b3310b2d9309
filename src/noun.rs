//! The one datum of the calculus: an atom or a pair of datums.
use vstd::prelude::*;

verus! {

/// A binary tree whose leaves are unsigned integers.
#[derive(Debug)]
pub enum Noun {
    Atom(u64),
    Cell(Box<(Noun, Noun)>),
}

/// The stuck sub-datum that a reduction could not rewrite.
#[derive(Debug)]
pub struct Error(pub Noun);

/// The outcome of every reducer: a datum, or the datum it got stuck on.
pub type Possibly<T> = Result<T, Error>;

/// The cell `[l r]`, as a mathematical value.
pub open spec fn pair(l: Noun, r: Noun) -> Noun {
    Noun::Cell(Box::new((l, r)))
}

/// Builds the cell `[left_noun right_noun]`.
pub fn cell(left_noun: Noun, right_noun: Noun) -> (r: Noun)
    ensures
        r == pair(left_noun, right_noun),
{
    Noun::Cell(Box::new((left_noun, right_noun)))
}

impl Noun {
    /// Structural equality, decided by walking both trees.
    pub fn same(&self, other: &Noun) -> (r: bool)
        ensures
            r == (*self == *other),
        decreases self,
    {
        match (self, other) {
            (Noun::Atom(x), Noun::Atom(y)) => *x == *y,
            (Noun::Cell(p), Noun::Cell(q)) => {
                let (ph, pt) = &**p;
                let (qh, qt) = &**q;
                ph.same(qh) && pt.same(qt)
            },
            _ => false,
        }
    }

    /// A deep copy of the tree.
    pub fn copy(&self) -> (r: Noun)
        ensures
            r == *self,
        decreases self,
    {
        match self {
            Noun::Atom(x) => Noun::Atom(*x),
            Noun::Cell(p) => {
                let (h, t) = &**p;
                cell(h.copy(), t.copy())
            },
        }
    }
}

impl PartialEq for Noun {
    fn eq(&self, other: &Noun) -> (r: bool) {
        self.same(other)
    }
}

impl vstd::std_specs::cmp::PartialEqSpecImpl for Noun {
    open spec fn obeys_eq_spec() -> bool {
        true
    }

    open spec fn eq_spec(&self, other: &Noun) -> bool {
        *self == *other
    }
}

impl Eq for Noun {
}

impl Clone for Noun {
    fn clone(&self) -> (r: Noun)
        ensures
            r == *self,
    {
        self.copy()
    }
}

impl PartialEq for Error {
    fn eq(&self, other: &Error) -> (r: bool) {
        self.0.same(&other.0)
    }
}

impl vstd::std_specs::cmp::PartialEqSpecImpl for Error {
    open spec fn obeys_eq_spec() -> bool {
        true
    }

    open spec fn eq_spec(&self, other: &Error) -> bool {
        *self == *other
    }
}

impl Eq for Error {
}

} // verus!
