//! Tree addressing: `/` reads the sub-tree at a slot, `#` replaces it.
//!
//! A slot is a positive integer whose binary digits after the leading `1`
//! spell a walk from the root: `0` takes the head, `1` the tail.
use vstd::prelude::*;

use crate::noun::{cell, pair, Error, Noun, Possibly};

verus! {

/// The sub-tree of `t` at slot `i`, or the datum the walk got stuck on.
pub open spec fn slot(i: u64, t: Noun) -> Possibly<Noun>
    decreases i,
{
    if i == 0 {
        Err(Error(Noun::Atom(0)))
    } else if i == 1 {
        Ok(t)
    } else if i <= 3 {
        match t {
            Noun::Cell(p) => if i == 2 {
                Ok(p.0)
            } else {
                Ok(p.1)
            },
            Noun::Atom(_) => Err(Error(pair(Noun::Atom(i), t))),
        }
    } else {
        match slot(i / 2, t) {
            Ok(r) => slot((2 + i % 2) as u64, r),
            Err(e) => Err(e),
        }
    }
}

/// `/[i t]`: the sub-tree of `t` at slot `i`.
pub open spec fn net_of(x: Noun) -> Possibly<Noun> {
    match x {
        Noun::Atom(_) => Err(Error(x)),
        Noun::Cell(p) => match p.0 {
            Noun::Atom(i) => slot(i, p.1),
            Noun::Cell(_) => Err(Error(p.0)),
        },
    }
}

/// The tree `c` with the sub-tree at slot `n` replaced by `b`: at each level
/// `b` is paired with its sibling in `c`, and the pair goes one level up.
pub open spec fn edit(n: u64, b: Noun, c: Noun) -> Possibly<Noun>
    decreases n,
{
    if n == 0 {
        Err(Error(Noun::Atom(0)))
    } else if n == 1 {
        Ok(b)
    } else if n % 2 == 0 {
        match slot((n + 1) as u64, c) {
            Ok(s) => edit(n / 2, pair(b, s), c),
            Err(e) => Err(e),
        }
    } else {
        match slot((n - 1) as u64, c) {
            Ok(s) => edit(((n - 1) / 2) as u64, pair(s, b), c),
            Err(e) => Err(e),
        }
    }
}

/// `#[n b c]`: the tree `c` with slot `n` replaced by `b`.
pub open spec fn hax_of(x: Noun) -> Possibly<Noun> {
    match x {
        Noun::Atom(_) => Err(Error(x)),
        Noun::Cell(p) => match p.0 {
            Noun::Cell(_) => Err(Error(p.0)),
            Noun::Atom(n) => if n == 0 {
                Err(Error(Noun::Atom(0)))
            } else {
                match p.1 {
                    Noun::Cell(q) => edit(n, q.0, q.1),
                    Noun::Atom(_) => Err(Error(x)),
                }
            },
        },
    }
}

/// The slot number that a `/` or `#` input starts from, which each of their
/// recursive steps lowers.
pub open spec fn slot_number(x: Noun) -> nat {
    match x {
        Noun::Cell(p) => match p.0 {
            Noun::Atom(i) => i as nat,
            Noun::Cell(_) => 0,
        },
        Noun::Atom(_) => 0,
    }
}

/// Slot read.
pub fn net(input: Noun) -> (r: Possibly<Noun>)
    ensures
        r == net_of(input),
    decreases slot_number(input),
{
    match input {
        Noun::Atom(n) => Err(Error(Noun::Atom(n))),
        Noun::Cell(p) => {
            let (a, t) = *p;
            match a {
                Noun::Cell(q) => Err(Error(Noun::Cell(q))),
                Noun::Atom(i) => {
                    if i == 0 {
                        Err(Error(Noun::Atom(0)))
                    } else if i == 1 {
                        Ok(t)
                    } else if i <= 3 {
                        match t {
                            Noun::Cell(q) => {
                                let (b, c) = *q;
                                if i == 2 {
                                    Ok(b)
                                } else {
                                    Ok(c)
                                }
                            },
                            Noun::Atom(m) => Err(Error(cell(Noun::Atom(i), Noun::Atom(m)))),
                        }
                    } else {
                        match net(cell(Noun::Atom(i / 2), t)) {
                            Ok(inner) => net(cell(Noun::Atom(2 + i % 2), inner)),
                            Err(e) => Err(e),
                        }
                    }
                },
            }
        },
    }
}

/// Slot edit.
pub fn hax(input: Noun) -> (r: Possibly<Noun>)
    ensures
        r == hax_of(input),
    decreases slot_number(input),
{
    match input {
        Noun::Atom(n) => Err(Error(Noun::Atom(n))),
        Noun::Cell(p) => {
            let (a, rest) = *p;
            match a {
                Noun::Cell(q) => Err(Error(Noun::Cell(q))),
                Noun::Atom(n) => {
                    if n == 0 {
                        return Err(Error(Noun::Atom(0)));
                    }
                    match rest {
                        Noun::Atom(m) => Err(Error(cell(Noun::Atom(n), Noun::Atom(m)))),
                        Noun::Cell(q) => {
                            let (b, c) = *q;
                            if n == 1 {
                                Ok(b)
                            } else if n % 2 == 0 {
                                match net(cell(Noun::Atom(n + 1), c.clone())) {
                                    Ok(s) => hax(cell(Noun::Atom(n / 2), cell(cell(b, s), c))),
                                    Err(e) => Err(e),
                                }
                            } else {
                                match net(cell(Noun::Atom(n - 1), c.clone())) {
                                    Ok(s) => hax(
                                        cell(Noun::Atom((n - 1) / 2), cell(cell(s, b), c)),
                                    ),
                                    Err(e) => Err(e),
                                }
                            }
                        },
                    }
                },
            }
        },
    }
}

/// Every slot from `2` on is read by reading its parent slot, then the head
/// (even slot) or the tail (odd slot) of what was found there.
pub proof fn slot_through_parent(n: u64, t: Noun)
    requires
        n >= 2,
    ensures
        slot(n, t) == match slot(n / 2, t) {
            Ok(r) => slot((2 + n % 2) as u64, r),
            Err(e) => Err(e),
        },
{
    reveal_with_fuel(slot, 2);
}

/// Where slot `n` of `c` can be read, editing it succeeds, and the edited
/// tree holds `b` at slot `n`.
pub proof fn edit_then_slot(n: u64, b: Noun, c: Noun)
    requires
        n >= 1,
        slot(n, c) is Ok,
    ensures
        edit(n, b, c) matches Ok(t) && slot(n, t) == Ok::<Noun, Error>(b),
    decreases n,
{
    if n >= 2 {
        slot_through_parent(n, c);
        let h = n / 2;
        if n % 2 == 0 {
            slot_through_parent((n + 1) as u64, c);
            let s = slot((n + 1) as u64, c)->Ok_0;
            edit_then_slot(h, pair(b, s), c);
            let t = edit(h, pair(b, s), c)->Ok_0;
            slot_through_parent(n, t);
        } else {
            slot_through_parent((n - 1) as u64, c);
            let s = slot((n - 1) as u64, c)->Ok_0;
            edit_then_slot(h, pair(s, b), c);
            let t = edit(h, pair(s, b), c)->Ok_0;
            slot_through_parent(n, t);
        }
    }
}

/// Writing then reading the same slot gives back what was written: wherever
/// `/[i t]` succeeds, `#[i w t]` succeeds too and `/` reads `w` at slot `i`
/// of its result.
pub proof fn net_after_hax(i: u64, w: Noun, t: Noun)
    requires
        i >= 1,
        net_of(pair(Noun::Atom(i), t)) is Ok,
    ensures
        hax_of(pair(Noun::Atom(i), pair(w, t))) matches Ok(e) && net_of(pair(Noun::Atom(i), e))
            == Ok::<Noun, Error>(w),
{
    edit_then_slot(i, w, t);
}

/// Slot `1` is the whole tree: `/[1 t]` is `t`, and `#[1 w t]` is `w`.
pub proof fn slot_one_is_whole(w: Noun, t: Noun)
    ensures
        net_of(pair(Noun::Atom(1), t)) == Ok::<Noun, Error>(t),
        hax_of(pair(Noun::Atom(1), pair(w, t))) == Ok::<Noun, Error>(w),
{
}

} // verus!
