//! The universal reducer `*`: a formula evaluated against a subject.
//!
//! The calculus is Turing-complete, so reduction is modelled with a depth
//! budget: `tar_fuel(f, x)` is `None` when reducing `x` needs nested
//! reductions deeper than `f`, and otherwise the result. Budgets only ever
//! add results, never change one (`tar_fuel_monotone`), so `tar_result`
//! names the result of a reduction that finishes at some depth.
use vstd::prelude::*;

use crate::noun::{cell, pair, Error, Noun, Possibly};
use crate::prim::{lus, lus_of, tis, tis_of, wut, wut_of};
use crate::slot::{hax, hax_of, net, net_of};

verus! {

/// Reduction of `x` with nested reductions at most `fuel` deep: `None` where
/// that budget does not suffice. An atom, or a cell whose formula is an atom,
/// is stuck as a whole.
pub open spec fn tar_fuel(fuel: nat, x: Noun) -> Option<Possibly<Noun>>
    decreases fuel, 2nat,
{
    if fuel == 0 {
        None
    } else {
        match x {
            Noun::Cell(p) => match p.1 {
                Noun::Cell(q) => match q.0 {
                    Noun::Cell(_) => cons_rule(fuel, p.0, q.0, q.1),
                    Noun::Atom(k) => op_rule(fuel, p.0, k, q.1),
                },
                Noun::Atom(_) => Some(Err(Error(x))),
            },
            Noun::Atom(_) => Some(Err(Error(x))),
        }
    }
}

/// `*[a [b c] d]` is `[*[a b c] *[a d]]`.
pub open spec fn cons_rule(fuel: nat, a: Noun, bc: Noun, d: Noun) -> Option<Possibly<Noun>>
    decreases fuel, 0nat,
{
    if fuel == 0 {
        None
    } else {
        let f = (fuel - 1) as nat;
        match tar_fuel(f, pair(a, bc)) {
            Some(Ok(u)) => match tar_fuel(f, pair(a, d)) {
                Some(Ok(v)) => Some(Ok(pair(u, v))),
                r => r,
            },
            r => r,
        }
    }
}

/// `*[a k b]` for an atom opcode `k`: `0` reads slot `b` of `a`, `1` quotes
/// `b`, `3` and `4` apply `?` and `+` to `*[a b]`; opcodes `2` and `5` to `11`
/// need `b` to be a cell, and every other opcode is stuck.
pub open spec fn op_rule(fuel: nat, a: Noun, k: u64, b: Noun) -> Option<Possibly<Noun>>
    decreases fuel, 1nat,
{
    if fuel == 0 {
        None
    } else {
        let f = (fuel - 1) as nat;
        if k == 0 {
            Some(net_of(pair(b, a)))
        } else if k == 1 {
            Some(Ok(b))
        } else if k == 3 {
            match tar_fuel(f, pair(a, b)) {
                Some(Ok(v)) => Some(wut_of(v)),
                r => r,
            }
        } else if k == 4 {
            match tar_fuel(f, pair(a, b)) {
                Some(Ok(v)) => Some(lus_of(v)),
                r => r,
            }
        } else if k > 11 {
            Some(Err(Error(pair(a, pair(Noun::Atom(k), b)))))
        } else {
            match b {
                Noun::Cell(bc) => if k == 2 {
                    eval_rule(fuel, a, bc.0, bc.1)
                } else if k == 5 {
                    equal_rule(fuel, a, bc.0, bc.1)
                } else if k == 6 {
                    if_rule(fuel, a, bc.0, bc.1)
                } else if k == 7 {
                    compose_rule(fuel, a, bc.0, bc.1)
                } else if k == 8 {
                    push_rule(fuel, a, bc.0, bc.1)
                } else if k == 9 {
                    invoke_rule(fuel, a, bc.0, bc.1)
                } else if k == 10 {
                    edit_rule(fuel, a, bc.0, bc.1)
                } else {
                    hint_rule(fuel, a, bc.0, bc.1)
                },
                Noun::Atom(_) => Some(Err(Error(pair(a, pair(Noun::Atom(k), b))))),
            }
        }
    }
}

/// `*[a 2 b c]` is `*[*[a b] *[a c]]`.
pub open spec fn eval_rule(fuel: nat, a: Noun, b: Noun, c: Noun) -> Option<Possibly<Noun>>
    decreases fuel, 0nat,
{
    if fuel == 0 {
        None
    } else {
        let f = (fuel - 1) as nat;
        match tar_fuel(f, pair(a, b)) {
            Some(Ok(s)) => match tar_fuel(f, pair(a, c)) {
                Some(Ok(g)) => tar_fuel(f, pair(s, g)),
                r => r,
            },
            r => r,
        }
    }
}

/// `*[a 5 b c]` is `=[*[a b] *[a c]]`.
pub open spec fn equal_rule(fuel: nat, a: Noun, b: Noun, c: Noun) -> Option<Possibly<Noun>>
    decreases fuel, 0nat,
{
    if fuel == 0 {
        None
    } else {
        let f = (fuel - 1) as nat;
        match tar_fuel(f, pair(a, b)) {
            Some(Ok(u)) => match tar_fuel(f, pair(a, c)) {
                Some(Ok(v)) => Some(tis_of(pair(u, v))),
                r => r,
            },
            r => r,
        }
    }
}

/// The formula `[4 4 b]`: the test `b`, plus two.
pub open spec fn shifted_test(b: Noun) -> Noun {
    pair(Noun::Atom(4), pair(Noun::Atom(4), b))
}

/// The subject-and-formula `[[2 3] 0 t]`: slot `t` of the cell `[2 3]`.
pub open spec fn branch_pick(t: Noun) -> Noun {
    pair(pair(Noun::Atom(2), Noun::Atom(3)), pair(Noun::Atom(0), t))
}

/// `*[a 6 b c d]` is `*[a *[[c d] 0 *[[2 3] 0 *[a 4 4 b]]]]`; the rest `cd`
/// must be a cell `[c d]`.
pub open spec fn if_rule(fuel: nat, a: Noun, b: Noun, cd: Noun) -> Option<Possibly<Noun>>
    decreases fuel, 0nat,
{
    if fuel == 0 {
        None
    } else {
        let f = (fuel - 1) as nat;
        match cd {
            Noun::Cell(_) => match tar_fuel(f, pair(a, shifted_test(b))) {
                Some(Ok(t1)) => match tar_fuel(f, branch_pick(t1)) {
                    Some(Ok(t2)) => match tar_fuel(f, pair(cd, pair(Noun::Atom(0), t2))) {
                        Some(Ok(t3)) => tar_fuel(f, pair(a, t3)),
                        r => r,
                    },
                    r => r,
                },
                r => r,
            },
            Noun::Atom(_) => Some(Err(Error(pair(a, pair(Noun::Atom(6), pair(b, cd)))))),
        }
    }
}

/// `*[a 7 b c]` is `*[*[a b] c]`.
pub open spec fn compose_rule(fuel: nat, a: Noun, b: Noun, c: Noun) -> Option<Possibly<Noun>>
    decreases fuel, 0nat,
{
    if fuel == 0 {
        None
    } else {
        let f = (fuel - 1) as nat;
        match tar_fuel(f, pair(a, b)) {
            Some(Ok(s)) => tar_fuel(f, pair(s, c)),
            r => r,
        }
    }
}

/// `*[a 8 b c]` is `*[[*[a b] a] c]`.
pub open spec fn push_rule(fuel: nat, a: Noun, b: Noun, c: Noun) -> Option<Possibly<Noun>>
    decreases fuel, 0nat,
{
    if fuel == 0 {
        None
    } else {
        let f = (fuel - 1) as nat;
        match tar_fuel(f, pair(a, b)) {
            Some(Ok(s)) => tar_fuel(f, pair(pair(s, a), c)),
            r => r,
        }
    }
}

/// `*[a 9 b c]` is `*[*[a c] 2 [0 1] 0 b]`.
pub open spec fn invoke_rule(fuel: nat, a: Noun, b: Noun, c: Noun) -> Option<Possibly<Noun>>
    decreases fuel, 0nat,
{
    if fuel == 0 {
        None
    } else {
        let f = (fuel - 1) as nat;
        match tar_fuel(f, pair(a, c)) {
            Some(Ok(s)) => tar_fuel(f, pair(s, arm_call(b))),
            r => r,
        }
    }
}

/// `*[a 10 [b c] d]` is `#[b *[a c] *[a d]]`; the head `bc` must be a cell.
pub open spec fn edit_rule(fuel: nat, a: Noun, bc: Noun, d: Noun) -> Option<Possibly<Noun>>
    decreases fuel, 0nat,
{
    if fuel == 0 {
        None
    } else {
        let f = (fuel - 1) as nat;
        match bc {
            Noun::Cell(p) => match tar_fuel(f, pair(a, p.1)) {
                Some(Ok(u)) => match tar_fuel(f, pair(a, d)) {
                    Some(Ok(v)) => Some(hax_of(pair(p.0, pair(u, v)))),
                    r => r,
                },
                r => r,
            },
            Noun::Atom(_) => Some(Err(Error(pair(a, pair(Noun::Atom(10), pair(bc, d)))))),
        }
    }
}

/// `*[a 11 [b c] d]` is `*[[*[a c] *[a d]] 0 3]`, and `*[a 11 b c]` with an
/// atom `b` is `*[a c]`.
pub open spec fn hint_rule(fuel: nat, a: Noun, h: Noun, d: Noun) -> Option<Possibly<Noun>>
    decreases fuel, 0nat,
{
    if fuel == 0 {
        None
    } else {
        let f = (fuel - 1) as nat;
        match h {
            Noun::Cell(p) => match tar_fuel(f, pair(a, p.1)) {
                Some(Ok(u)) => match tar_fuel(f, pair(a, d)) {
                    Some(Ok(v)) => tar_fuel(
                        f,
                        pair(pair(u, v), pair(Noun::Atom(0), Noun::Atom(3))),
                    ),
                    r => r,
                },
                r => r,
            },
            Noun::Atom(_) => tar_fuel(f, pair(a, d)),
        }
    }
}

/// The formula `[2 [0 1] 0 b]`: evaluate the subject's arm at slot `b`
/// against the subject.
pub open spec fn arm_call(b: Noun) -> Noun {
    pair(
        Noun::Atom(2),
        pair(pair(Noun::Atom(0), Noun::Atom(1)), pair(Noun::Atom(0), b)),
    )
}

/// A run with a depth budget reported `r` where the model gives `outcome`:
/// the model's result where the budget sufficed, a failure where it did not.
pub open spec fn within_budget(outcome: Option<Possibly<Noun>>, r: Possibly<Noun>) -> bool {
    match outcome {
        Some(v) => r == v,
        None => r is Err,
    }
}

/// Depth budget of `tar`: nested reductions deeper than this are reported
/// stuck rather than run on until the host stack is exhausted.
pub const TAR_DEPTH: u64 = 2000;

/// The universal reducer, with the default depth budget.
pub fn tar(input: Noun) -> (r: Possibly<Noun>)
    ensures
        within_budget(tar_fuel(TAR_DEPTH as nat, input), r),
        tar_fuel(TAR_DEPTH as nat, input) is Some ==> tar_result(input) == Some(r),
{
    proof {
        if tar_fuel(TAR_DEPTH as nat, input) is Some {
            tar_fuel_settles(TAR_DEPTH as nat, input);
        }
    }
    tar_within(input, TAR_DEPTH)
}

/// The universal reducer with nested reductions at most `depth` deep; a
/// reduction that needs more is reported stuck on the input it could not
/// finish.
pub fn tar_within(input: Noun, depth: u64) -> (r: Possibly<Noun>)
    ensures
        within_budget(tar_fuel(depth as nat, input), r),
    decreases depth, 3nat,
{
    if depth == 0 {
        return Err(Error(input));
    }
    match input {
        Noun::Atom(n) => Err(Error(Noun::Atom(n))),
        Noun::Cell(p) => {
            let (a, formula) = *p;
            match formula {
                Noun::Atom(m) => Err(Error(cell(a, Noun::Atom(m)))),
                Noun::Cell(q) => {
                    let (op, b) = *q;
                    match op {
                        Noun::Cell(bc) => cons_step(a, Noun::Cell(bc), b, depth),
                        Noun::Atom(k) => apply_op(a, k, b, depth),
                    }
                },
            }
        },
    }
}

/// Reduces `*[a b]` with a budget one below `depth`, for a rule whose whole
/// budget is `depth`.
fn reduce_under(a: Noun, b: Noun, depth: u64) -> (r: Possibly<Noun>)
    requires
        depth >= 1,
    ensures
        within_budget(tar_fuel((depth - 1) as nat, pair(a, b)), r),
    decreases depth, 0nat,
{
    tar_within(cell(a, b), depth - 1)
}

/// Runs `cons_rule`: both halves against the subject, paired.
fn cons_step(a: Noun, bc: Noun, d: Noun, depth: u64) -> (r: Possibly<Noun>)
    requires
        depth >= 1,
    ensures
        within_budget(cons_rule(depth as nat, a, bc, d), r),
    decreases depth, 1nat,
{
    let u = match reduce_under(a.clone(), bc, depth) {
        Ok(u) => u,
        Err(e) => return Err(e),
    };
    let v = match reduce_under(a, d, depth) {
        Ok(v) => v,
        Err(e) => return Err(e),
    };
    Ok(cell(u, v))
}

/// Runs `op_rule`: dispatches on the atom opcode `k`.
fn apply_op(a: Noun, k: u64, b: Noun, depth: u64) -> (r: Possibly<Noun>)
    requires
        depth >= 1,
    ensures
        within_budget(op_rule(depth as nat, a, k, b), r),
    decreases depth, 2nat,
{
    if k == 0 {
        net(cell(b, a))
    } else if k == 1 {
        Ok(b)
    } else if k == 3 {
        match reduce_under(a, b, depth) {
            Ok(v) => wut(v),
            Err(e) => Err(e),
        }
    } else if k == 4 {
        match reduce_under(a, b, depth) {
            Ok(v) => lus(v),
            Err(e) => Err(e),
        }
    } else if k > 11 {
        Err(Error(cell(a, cell(Noun::Atom(k), b))))
    } else {
        match b {
            Noun::Atom(m) => Err(Error(cell(a, cell(Noun::Atom(k), Noun::Atom(m))))),
            Noun::Cell(bc) => {
                let (b0, c) = *bc;
                if k == 2 {
                    eval_step(a, b0, c, depth)
                } else if k == 5 {
                    equal_step(a, b0, c, depth)
                } else if k == 6 {
                    if_step(a, b0, c, depth)
                } else if k == 7 {
                    match reduce_under(a, b0, depth) {
                        Ok(s) => reduce_under(s, c, depth),
                        Err(e) => Err(e),
                    }
                } else if k == 8 {
                    match reduce_under(a.clone(), b0, depth) {
                        Ok(s) => reduce_under(cell(s, a), c, depth),
                        Err(e) => Err(e),
                    }
                } else if k == 9 {
                    match reduce_under(a, c, depth) {
                        Ok(s) => reduce_under(s, arm_formula(b0), depth),
                        Err(e) => Err(e),
                    }
                } else if k == 10 {
                    edit_step(a, b0, c, depth)
                } else {
                    hint_step(a, b0, c, depth)
                }
            },
        }
    }
}

/// Runs `eval_rule` (opcode `2`).
fn eval_step(a: Noun, b: Noun, c: Noun, depth: u64) -> (r: Possibly<Noun>)
    requires
        depth >= 1,
    ensures
        within_budget(eval_rule(depth as nat, a, b, c), r),
    decreases depth, 1nat,
{
    let s = match reduce_under(a.clone(), b, depth) {
        Ok(s) => s,
        Err(e) => return Err(e),
    };
    let g = match reduce_under(a, c, depth) {
        Ok(g) => g,
        Err(e) => return Err(e),
    };
    reduce_under(s, g, depth)
}

/// Runs `equal_rule` (opcode `5`).
fn equal_step(a: Noun, b: Noun, c: Noun, depth: u64) -> (r: Possibly<Noun>)
    requires
        depth >= 1,
    ensures
        within_budget(equal_rule(depth as nat, a, b, c), r),
    decreases depth, 1nat,
{
    let u = match reduce_under(a.clone(), b, depth) {
        Ok(u) => u,
        Err(e) => return Err(e),
    };
    let v = match reduce_under(a, c, depth) {
        Ok(v) => v,
        Err(e) => return Err(e),
    };
    tis(cell(u, v))
}

/// Runs `if_rule` (opcode `6`), through its expansion.
fn if_step(a: Noun, b: Noun, cd: Noun, depth: u64) -> (r: Possibly<Noun>)
    requires
        depth >= 1,
    ensures
        within_budget(if_rule(depth as nat, a, b, cd), r),
    decreases depth, 1nat,
{
    match cd {
        Noun::Atom(m) => Err(Error(cell(a, cell(Noun::Atom(6), cell(b, Noun::Atom(m)))))),
        Noun::Cell(branches) => {
            let test = cell(Noun::Atom(4), cell(Noun::Atom(4), b));
            let t1 = match reduce_under(a.clone(), test, depth) {
                Ok(t) => t,
                Err(e) => return Err(e),
            };
            let t2 = match reduce_under(
                cell(Noun::Atom(2), Noun::Atom(3)),
                cell(Noun::Atom(0), t1),
                depth,
            ) {
                Ok(t) => t,
                Err(e) => return Err(e),
            };
            let t3 = match reduce_under(Noun::Cell(branches), cell(Noun::Atom(0), t2), depth) {
                Ok(t) => t,
                Err(e) => return Err(e),
            };
            reduce_under(a, t3, depth)
        },
    }
}

/// Runs `edit_rule` (opcode `10`).
fn edit_step(a: Noun, bc: Noun, d: Noun, depth: u64) -> (r: Possibly<Noun>)
    requires
        depth >= 1,
    ensures
        within_budget(edit_rule(depth as nat, a, bc, d), r),
    decreases depth, 1nat,
{
    match bc {
        Noun::Atom(m) => Err(Error(cell(a, cell(Noun::Atom(10), cell(Noun::Atom(m), d))))),
        Noun::Cell(p) => {
            let (at, value) = *p;
            let u = match reduce_under(a.clone(), value, depth) {
                Ok(u) => u,
                Err(e) => return Err(e),
            };
            let v = match reduce_under(a, d, depth) {
                Ok(v) => v,
                Err(e) => return Err(e),
            };
            hax(cell(at, cell(u, v)))
        },
    }
}

/// Runs `hint_rule` (opcode `11`).
fn hint_step(a: Noun, h: Noun, d: Noun, depth: u64) -> (r: Possibly<Noun>)
    requires
        depth >= 1,
    ensures
        within_budget(hint_rule(depth as nat, a, h, d), r),
    decreases depth, 1nat,
{
    match h {
        Noun::Atom(_) => reduce_under(a, d, depth),
        Noun::Cell(p) => {
            let (_tag, hint) = *p;
            let u = match reduce_under(a.clone(), hint, depth) {
                Ok(u) => u,
                Err(e) => return Err(e),
            };
            let v = match reduce_under(a, d, depth) {
                Ok(v) => v,
                Err(e) => return Err(e),
            };
            reduce_under(cell(u, v), cell(Noun::Atom(0), Noun::Atom(3)), depth)
        },
    }
}

/// Builds the formula `[2 [0 1] 0 b]`.
fn arm_formula(b: Noun) -> (r: Noun)
    ensures
        r == arm_call(b),
{
    cell(Noun::Atom(2), cell(cell(Noun::Atom(0), Noun::Atom(1)), cell(Noun::Atom(0), b)))
}

/// The result of reducing `x`, where some depth budget suffices; `None`
/// where the reduction does not finish.
pub open spec fn tar_result(x: Noun) -> Option<Possibly<Noun>> {
    if exists|f: nat| #[trigger] tar_fuel(f, x) is Some {
        tar_fuel(choose|f: nat| #[trigger] tar_fuel(f, x) is Some, x)
    } else {
        None
    }
}

/// Every result reached with budget `f` is also reached, unchanged, with
/// budget `g`.
spec fn extends(f: nat, g: nat) -> bool {
    forall|s: Noun| #[trigger] tar_fuel(f, s) is Some ==> tar_fuel(g, s) == tar_fuel(f, s)
}

proof fn cons_rule_monotone(f: nat, g: nat, a: Noun, bc: Noun, d: Noun)
    requires
        1 <= f <= g,
        extends((f - 1) as nat, (g - 1) as nat),
        cons_rule(f, a, bc, d) is Some,
    ensures
        cons_rule(g, a, bc, d) == cons_rule(f, a, bc, d),
{
    let f1 = (f - 1) as nat;
    assert(tar_fuel(f1, pair(a, bc)) is Some);
    if let Some(Ok(u)) = tar_fuel(f1, pair(a, bc)) {
        assert(tar_fuel(f1, pair(a, d)) is Some);
    }
}

proof fn eval_rule_monotone(f: nat, g: nat, a: Noun, b: Noun, c: Noun)
    requires
        1 <= f <= g,
        extends((f - 1) as nat, (g - 1) as nat),
        eval_rule(f, a, b, c) is Some,
    ensures
        eval_rule(g, a, b, c) == eval_rule(f, a, b, c),
{
    let f1 = (f - 1) as nat;
    assert(tar_fuel(f1, pair(a, b)) is Some);
    if let Some(Ok(u)) = tar_fuel(f1, pair(a, b)) {
        assert(tar_fuel(f1, pair(a, c)) is Some);
        if let Some(Ok(v)) = tar_fuel(f1, pair(a, c)) {
            assert(tar_fuel(f1, pair(u, v)) is Some);
        }
    }
}

proof fn equal_rule_monotone(f: nat, g: nat, a: Noun, b: Noun, c: Noun)
    requires
        1 <= f <= g,
        extends((f - 1) as nat, (g - 1) as nat),
        equal_rule(f, a, b, c) is Some,
    ensures
        equal_rule(g, a, b, c) == equal_rule(f, a, b, c),
{
    let f1 = (f - 1) as nat;
    assert(tar_fuel(f1, pair(a, b)) is Some);
    if let Some(Ok(u)) = tar_fuel(f1, pair(a, b)) {
        assert(tar_fuel(f1, pair(a, c)) is Some);
    }
}

proof fn if_rule_monotone(f: nat, g: nat, a: Noun, b: Noun, cd: Noun)
    requires
        1 <= f <= g,
        extends((f - 1) as nat, (g - 1) as nat),
        if_rule(f, a, b, cd) is Some,
    ensures
        if_rule(g, a, b, cd) == if_rule(f, a, b, cd),
{
    let f1 = (f - 1) as nat;
    if cd is Cell {
        assert(tar_fuel(f1, pair(a, shifted_test(b))) is Some);
        if let Some(Ok(t1)) = tar_fuel(f1, pair(a, shifted_test(b))) {
            assert(tar_fuel(f1, branch_pick(t1)) is Some);
            if let Some(Ok(t2)) = tar_fuel(f1, branch_pick(t1)) {
                let sel = pair(cd, pair(Noun::Atom(0), t2));
                assert(tar_fuel(f1, sel) is Some);
                if let Some(Ok(t3)) = tar_fuel(f1, sel) {
                    assert(tar_fuel(f1, pair(a, t3)) is Some);
                }
            }
        }
    }
}

proof fn compose_rule_monotone(f: nat, g: nat, a: Noun, b: Noun, c: Noun)
    requires
        1 <= f <= g,
        extends((f - 1) as nat, (g - 1) as nat),
        compose_rule(f, a, b, c) is Some,
    ensures
        compose_rule(g, a, b, c) == compose_rule(f, a, b, c),
{
    let f1 = (f - 1) as nat;
    assert(tar_fuel(f1, pair(a, b)) is Some);
    if let Some(Ok(s)) = tar_fuel(f1, pair(a, b)) {
        assert(tar_fuel(f1, pair(s, c)) is Some);
    }
}

proof fn push_rule_monotone(f: nat, g: nat, a: Noun, b: Noun, c: Noun)
    requires
        1 <= f <= g,
        extends((f - 1) as nat, (g - 1) as nat),
        push_rule(f, a, b, c) is Some,
    ensures
        push_rule(g, a, b, c) == push_rule(f, a, b, c),
{
    let f1 = (f - 1) as nat;
    assert(tar_fuel(f1, pair(a, b)) is Some);
    if let Some(Ok(s)) = tar_fuel(f1, pair(a, b)) {
        assert(tar_fuel(f1, pair(pair(s, a), c)) is Some);
    }
}

proof fn invoke_rule_monotone(f: nat, g: nat, a: Noun, b: Noun, c: Noun)
    requires
        1 <= f <= g,
        extends((f - 1) as nat, (g - 1) as nat),
        invoke_rule(f, a, b, c) is Some,
    ensures
        invoke_rule(g, a, b, c) == invoke_rule(f, a, b, c),
{
    let f1 = (f - 1) as nat;
    assert(tar_fuel(f1, pair(a, c)) is Some);
    if let Some(Ok(s)) = tar_fuel(f1, pair(a, c)) {
        assert(tar_fuel(f1, pair(s, arm_call(b))) is Some);
    }
}

proof fn edit_rule_monotone(f: nat, g: nat, a: Noun, bc: Noun, d: Noun)
    requires
        1 <= f <= g,
        extends((f - 1) as nat, (g - 1) as nat),
        edit_rule(f, a, bc, d) is Some,
    ensures
        edit_rule(g, a, bc, d) == edit_rule(f, a, bc, d),
{
    let f1 = (f - 1) as nat;
    if let Noun::Cell(p) = bc {
        assert(tar_fuel(f1, pair(a, p.1)) is Some);
        if let Some(Ok(u)) = tar_fuel(f1, pair(a, p.1)) {
            assert(tar_fuel(f1, pair(a, d)) is Some);
        }
    }
}

proof fn hint_rule_monotone(f: nat, g: nat, a: Noun, h: Noun, d: Noun)
    requires
        1 <= f <= g,
        extends((f - 1) as nat, (g - 1) as nat),
        hint_rule(f, a, h, d) is Some,
    ensures
        hint_rule(g, a, h, d) == hint_rule(f, a, h, d),
{
    let f1 = (f - 1) as nat;
    if let Noun::Cell(p) = h {
        assert(tar_fuel(f1, pair(a, p.1)) is Some);
        if let Some(Ok(u)) = tar_fuel(f1, pair(a, p.1)) {
            assert(tar_fuel(f1, pair(a, d)) is Some);
            if let Some(Ok(v)) = tar_fuel(f1, pair(a, d)) {
                let rest = pair(pair(u, v), pair(Noun::Atom(0), Noun::Atom(3)));
                assert(tar_fuel(f1, rest) is Some);
            }
        }
    } else {
        assert(tar_fuel(f1, pair(a, d)) is Some);
    }
}

proof fn op_rule_monotone(f: nat, g: nat, a: Noun, k: u64, b: Noun)
    requires
        1 <= f <= g,
        extends((f - 1) as nat, (g - 1) as nat),
        op_rule(f, a, k, b) is Some,
    ensures
        op_rule(g, a, k, b) == op_rule(f, a, k, b),
{
    if k == 3 || k == 4 {
        assert(tar_fuel((f - 1) as nat, pair(a, b)) is Some);
    } else if k > 1 && k <= 11 {
        if let Noun::Cell(bc) = b {
            if k == 2 {
                eval_rule_monotone(f, g, a, bc.0, bc.1);
            } else if k == 5 {
                equal_rule_monotone(f, g, a, bc.0, bc.1);
            } else if k == 6 {
                if_rule_monotone(f, g, a, bc.0, bc.1);
            } else if k == 7 {
                compose_rule_monotone(f, g, a, bc.0, bc.1);
            } else if k == 8 {
                push_rule_monotone(f, g, a, bc.0, bc.1);
            } else if k == 9 {
                invoke_rule_monotone(f, g, a, bc.0, bc.1);
            } else if k == 10 {
                edit_rule_monotone(f, g, a, bc.0, bc.1);
            } else {
                hint_rule_monotone(f, g, a, bc.0, bc.1);
            }
        }
    }
}

/// A larger budget never changes a result that a smaller one reached.
pub proof fn tar_fuel_monotone(f: nat, g: nat, x: Noun)
    requires
        f <= g,
        tar_fuel(f, x) is Some,
    ensures
        tar_fuel(g, x) == tar_fuel(f, x),
    decreases f,
{
    if f > 0 {
        let f1 = (f - 1) as nat;
        let g1 = (g - 1) as nat;
        assert forall|s: Noun| #[trigger] tar_fuel(f1, s) is Some implies tar_fuel(g1, s)
            == tar_fuel(f1, s) by {
            tar_fuel_monotone(f1, g1, s);
        }
        if let Noun::Cell(p) = x {
            if let Noun::Cell(q) = p.1 {
                match q.0 {
                    Noun::Cell(_) => cons_rule_monotone(f, g, p.0, q.0, q.1),
                    Noun::Atom(k) => op_rule_monotone(f, g, p.0, k, q.1),
                }
            }
        }
    }
}

/// A budget that suffices gives the result.
pub proof fn tar_fuel_settles(f: nat, x: Noun)
    requires
        tar_fuel(f, x) is Some,
    ensures
        tar_result(x) == tar_fuel(f, x),
{
    let c = choose|c: nat| #[trigger] tar_fuel(c, x) is Some;
    if c <= f {
        tar_fuel_monotone(c, f, x);
    } else {
        tar_fuel_monotone(f, c, x);
    }
}

/// Two inputs whose reductions agree, one budget step apart, from some
/// budget on, have the same result.
proof fn results_agree_shifted(x: Noun, y: Noun, k: nat)
    requires
        forall|g: nat| g > k ==> #[trigger] tar_fuel(g, x) == tar_fuel((g - 1) as nat, y),
    ensures
        tar_result(x) == tar_result(y),
{
    if exists|f: nat| #[trigger] tar_fuel(f, y) is Some {
        let f = choose|f: nat| #[trigger] tar_fuel(f, y) is Some;
        let m = if f > k {
            f
        } else {
            k
        };
        tar_fuel_monotone(f, m, y);
        assert(tar_fuel(m + 1, x) == tar_fuel(m, y));
        tar_fuel_settles(m, y);
        tar_fuel_settles(m + 1, x);
    } else if exists|g: nat| #[trigger] tar_fuel(g, x) is Some {
        let g = choose|g: nat| #[trigger] tar_fuel(g, x) is Some;
        let m = if g > k {
            g
        } else {
            k + 1
        };
        tar_fuel_monotone(g, m, x);
        assert(tar_fuel((m - 1) as nat, y) is Some);
    }
}

/// The input `*[a 6 [1 bit] c d]`: a conditional on a quoted test.
pub open spec fn quoted_if(a: Noun, bit: u64, c: Noun, d: Noun) -> Noun {
    pair(
        a,
        pair(Noun::Atom(6), pair(pair(Noun::Atom(1), Noun::Atom(bit)), pair(c, d))),
    )
}

proof fn quoted_if_fuel(g: nat, a: Noun, bit: u64, c: Noun, d: Noun)
    requires
        g > 3,
        bit == 0 || bit == 1,
    ensures
        tar_fuel(g, quoted_if(a, bit, c, d)) == tar_fuel(
            (g - 1) as nat,
            pair(a, if bit == 0 { c } else { d }),
        ),
{
    let g1 = (g - 1) as nat;
    let g2 = (g - 2) as nat;
    let g3 = (g - 3) as nat;
    let test = pair(Noun::Atom(1), Noun::Atom(bit));
    let cd = pair(c, d);
    assert(tar_fuel(g3, pair(a, test)) == op_rule(g3, a, 1, Noun::Atom(bit)));
    assert(tar_fuel(g2, pair(a, pair(Noun::Atom(4), test))) == op_rule(g2, a, 4, test));
    assert(tar_fuel(g1, pair(a, shifted_test(test))) == op_rule(
        g1,
        a,
        4,
        pair(Noun::Atom(4), test),
    ));
    let t1 = Noun::Atom((bit + 2) as u64);
    assert(tar_fuel(g1, pair(a, shifted_test(test))) == Some(Ok::<Noun, Error>(t1)));
    let two_three = pair(Noun::Atom(2), Noun::Atom(3));
    assert(tar_fuel(g1, branch_pick(t1)) == op_rule(g1, two_three, 0, t1));
    let t2 = Noun::Atom((bit + 2) as u64);
    assert(tar_fuel(g1, branch_pick(t1)) == Some(Ok::<Noun, Error>(t2)));
    let sel = pair(cd, pair(Noun::Atom(0), t2));
    assert(tar_fuel(g1, sel) == op_rule(g1, cd, 0, t2));
    let t3 = if bit == 0 {
        c
    } else {
        d
    };
    assert(tar_fuel(g1, sel) == Some(Ok::<Noun, Error>(t3)));
    assert(tar_fuel(g, quoted_if(a, bit, c, d)) == op_rule(
        g,
        a,
        6,
        pair(test, cd),
    ));
}

/// Quoting ignores the subject: `*[a 1 b]` is `b`.
pub proof fn quote_is_constant(a: Noun, b: Noun)
    ensures
        tar_result(pair(a, pair(Noun::Atom(1), b))) == Some(Ok::<Noun, Error>(b)),
{
    let x = pair(a, pair(Noun::Atom(1), b));
    assert(tar_fuel(1, x) == op_rule(1, a, 1, b));
    tar_fuel_settles(1, x);
}

/// Slot `1` of the subject is the subject: `*[a 0 1]` is `a`.
pub proof fn slot_one_reads_subject(a: Noun)
    ensures
        tar_result(pair(a, pair(Noun::Atom(0), Noun::Atom(1)))) == Some(Ok::<Noun, Error>(a)),
{
    let x = pair(a, pair(Noun::Atom(0), Noun::Atom(1)));
    assert(tar_fuel(1, x) == op_rule(1, a, 0, Noun::Atom(1)));
    tar_fuel_settles(1, x);
}

/// Opcode `6` on a quoted test selects a branch: a test of `0` reduces like
/// `*[a c]`, a test of `1` like `*[a d]`, whatever those give (a result, a
/// failure, or no end).
pub proof fn conditional_selects_branch(a: Noun, c: Noun, d: Noun)
    ensures
        tar_result(quoted_if(a, 0, c, d)) == tar_result(pair(a, c)),
        tar_result(quoted_if(a, 1, c, d)) == tar_result(pair(a, d)),
{
    assert forall|g: nat| g > 3 implies #[trigger] tar_fuel(g, quoted_if(a, 0, c, d)) == tar_fuel(
        (g - 1) as nat,
        pair(a, c),
    ) by {
        quoted_if_fuel(g, a, 0, c, d);
    }
    results_agree_shifted(quoted_if(a, 0, c, d), pair(a, c), 3);
    assert forall|g: nat| g > 3 implies #[trigger] tar_fuel(g, quoted_if(a, 1, c, d)) == tar_fuel(
        (g - 1) as nat,
        pair(a, d),
    ) by {
        quoted_if_fuel(g, a, 1, c, d);
    }
    results_agree_shifted(quoted_if(a, 1, c, d), pair(a, d), 3);
}

/// A formula whose head is a cell pairs two reductions: `*[a [b c] d]` is the
/// cell `[u v]` exactly when `*[a b c]` is `u` and `*[a d]` is `v`.
pub proof fn cons_pairs_results(a: Noun, b: Noun, c: Noun, d: Noun, u: Noun, v: Noun)
    ensures
        tar_result(pair(a, pair(pair(b, c), d))) == Some(Ok::<Noun, Error>(pair(u, v))) <==> (
        tar_result(pair(a, pair(b, c))) == Some(Ok::<Noun, Error>(u)) && tar_result(pair(a, d))
            == Some(Ok::<Noun, Error>(v))),
{
    let x = pair(a, pair(pair(b, c), d));
    let left = pair(a, pair(b, c));
    let right = pair(a, d);
    if tar_result(x) == Some(Ok::<Noun, Error>(pair(u, v))) {
        let f = choose|f: nat| #[trigger] tar_fuel(f, x) is Some;
        assert(tar_fuel(f, x) == cons_rule(f, a, pair(b, c), d));
        let f1 = (f - 1) as nat;
        assert(tar_fuel(f1, left) == Some(Ok::<Noun, Error>(u)));
        assert(tar_fuel(f1, right) == Some(Ok::<Noun, Error>(v)));
        tar_fuel_settles(f1, left);
        tar_fuel_settles(f1, right);
    }
    if tar_result(left) == Some(Ok::<Noun, Error>(u)) && tar_result(right) == Some(
        Ok::<Noun, Error>(v),
    ) {
        let f1 = choose|f: nat| #[trigger] tar_fuel(f, left) is Some;
        let f2 = choose|f: nat| #[trigger] tar_fuel(f, right) is Some;
        let m = if f1 > f2 {
            f1
        } else {
            f2
        };
        tar_fuel_monotone(f1, m, left);
        tar_fuel_monotone(f2, m, right);
        assert(tar_fuel(m + 1, x) == cons_rule(m + 1, a, pair(b, c), d));
        tar_fuel_settles(m + 1, x);
    }
}

} // verus!
