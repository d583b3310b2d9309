//! The structural predicates `?`, `+` and `=`.
use vstd::prelude::*;

use crate::noun::{cell, pair, Error, Noun, Possibly};

verus! {

/// `?x`: `0` when `x` is a cell, `1` when it is an atom.
pub open spec fn wut_of(x: Noun) -> Possibly<Noun> {
    match x {
        Noun::Cell(_) => Ok(Noun::Atom(0)),
        Noun::Atom(_) => Ok(Noun::Atom(1)),
    }
}

/// The successor of an atom on the 64-bit host width, wrapping at the top.
pub open spec fn succ(n: u64) -> u64 {
    if n == u64::MAX {
        0
    } else {
        (n + 1) as u64
    }
}

/// `+x`: the successor of an atom; a cell is stuck.
pub open spec fn lus_of(x: Noun) -> Possibly<Noun> {
    match x {
        Noun::Atom(n) => Ok(Noun::Atom(succ(n))),
        Noun::Cell(_) => Err(Error(x)),
    }
}

/// `=[a b]`: `0` when the two halves are the same tree, `1` otherwise; an
/// atom is stuck.
pub open spec fn tis_of(x: Noun) -> Possibly<Noun> {
    match x {
        Noun::Atom(_) => Err(Error(x)),
        Noun::Cell(p) => if p.0 == p.1 {
            Ok(Noun::Atom(0))
        } else {
            Ok(Noun::Atom(1))
        },
    }
}

/// Is-cell predicate.
pub fn wut(input: Noun) -> (r: Possibly<Noun>)
    ensures
        r == wut_of(input),
{
    match input {
        Noun::Cell(_) => Ok(Noun::Atom(0)),
        Noun::Atom(_) => Ok(Noun::Atom(1)),
    }
}

/// Equality of the two halves of a cell.
pub fn tis(input: Noun) -> (r: Possibly<Noun>)
    ensures
        r == tis_of(input),
{
    match input {
        Noun::Atom(n) => Err(Error(Noun::Atom(n))),
        Noun::Cell(p) => {
            let (n1, n2) = *p;
            if n1 == n2 {
                Ok(Noun::Atom(0))
            } else {
                Ok(Noun::Atom(1))
            }
        },
    }
}

/// Increment of an atom.
pub fn lus(input: Noun) -> (r: Possibly<Noun>)
    ensures
        r == lus_of(input),
{
    match input {
        Noun::Atom(n) => {
            if n == u64::MAX {
                Ok(Noun::Atom(0))
            } else {
                Ok(Noun::Atom(n + 1))
            }
        },
        other => Err(Error(other)),
    }
}

/// `?` tells cells from atoms: `0` for every cell, `1` for every atom.
pub proof fn wut_tells_cells_from_atoms(x: Noun, y: Noun, n: u64)
    ensures
        wut_of(pair(x, y)) == Ok::<Noun, Error>(Noun::Atom(0)),
        wut_of(Noun::Atom(n)) == Ok::<Noun, Error>(Noun::Atom(1)),
{
}

/// `+` adds one to every atom below the top of the host width, and is stuck
/// on every cell, with that cell as the stuck datum.
pub proof fn lus_increments_atoms(n: u64, x: Noun, y: Noun)
    requires
        n < u64::MAX,
    ensures
        lus_of(Noun::Atom(n)) == Ok::<Noun, Error>(Noun::Atom((n + 1) as u64)),
        lus_of(pair(x, y)) == Err::<Noun, Error>(Error(pair(x, y))),
{
}

/// `=` yields `0` on a cell of two equal trees, `1` on a cell of two
/// different trees, and is stuck on every atom.
pub proof fn tis_compares_halves(x: Noun, y: Noun, n: u64)
    ensures
        tis_of(pair(x, x)) == Ok::<Noun, Error>(Noun::Atom(0)),
        x != y ==> tis_of(pair(x, y)) == Ok::<Noun, Error>(Noun::Atom(1)),
        tis_of(Noun::Atom(n)) == Err::<Noun, Error>(Error(Noun::Atom(n))),
{
}

} // verus!
