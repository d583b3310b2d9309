//! A request to the evaluator: a datum, or one reducer applied to a datum.
use vstd::prelude::*;

use crate::noun::{Noun, Possibly};
use crate::prim::{lus, lus_of, tis, tis_of, wut, wut_of};
use crate::reduce::{tar, tar_fuel, tar_result, within_budget, TAR_DEPTH};
use crate::slot::{hax, hax_of, net, net_of};

verus! {

/// A datum to return as it is, or a reducer and the datum to reduce.
#[derive(Debug)]
pub enum Expr {
    Noun(Noun),
    Wut(Noun),
    Lus(Noun),
    Tis(Noun),
    Net(Noun),
    Hax(Noun),
    Tar(Noun),
}

impl PartialEq for Expr {
    fn eq(&self, other: &Expr) -> (r: bool) {
        match (self, other) {
            (Expr::Noun(x), Expr::Noun(y)) => x.same(y),
            (Expr::Wut(x), Expr::Wut(y)) => x.same(y),
            (Expr::Lus(x), Expr::Lus(y)) => x.same(y),
            (Expr::Tis(x), Expr::Tis(y)) => x.same(y),
            (Expr::Net(x), Expr::Net(y)) => x.same(y),
            (Expr::Hax(x), Expr::Hax(y)) => x.same(y),
            (Expr::Tar(x), Expr::Tar(y)) => x.same(y),
            _ => false,
        }
    }
}

impl vstd::std_specs::cmp::PartialEqSpecImpl for Expr {
    open spec fn obeys_eq_spec() -> bool {
        true
    }

    open spec fn eq_spec(&self, other: &Expr) -> bool {
        *self == *other
    }
}

impl Eq for Expr {
}

/// Evaluates a request by the reducer it names; `tar` runs with the default
/// depth budget.
pub fn eval(expr: Expr) -> (r: Possibly<Noun>)
    ensures
        match expr {
            Expr::Noun(n) => r == Ok::<Noun, crate::noun::Error>(n),
            Expr::Wut(n) => r == wut_of(n),
            Expr::Lus(n) => r == lus_of(n),
            Expr::Tis(n) => r == tis_of(n),
            Expr::Net(n) => r == net_of(n),
            Expr::Hax(n) => r == hax_of(n),
            Expr::Tar(n) => within_budget(tar_fuel(TAR_DEPTH as nat, n), r) && (tar_fuel(
                TAR_DEPTH as nat,
                n,
            ) is Some ==> tar_result(n) == Some(r)),
        },
{
    match expr {
        Expr::Noun(n) => Ok(n),
        Expr::Wut(n) => wut(n),
        Expr::Lus(n) => lus(n),
        Expr::Tis(n) => tis(n),
        Expr::Net(n) => net(n),
        Expr::Hax(n) => hax(n),
        Expr::Tar(n) => tar(n),
    }
}

} // verus!
