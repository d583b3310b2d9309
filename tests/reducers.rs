use nock::Noun::{Atom, Cell};
use nock::{cell, eval, hax, lus, net, tar, tar_within, tis, wut, Error, Expr, Noun};

fn tree() -> Noun {
    cell(Atom(531), cell(Atom(25), Atom(99)))
}

#[test]
fn test_wut() {
    assert_eq!(wut(cell(Atom(1), Atom(2))), Ok(Atom(0)));
    assert_eq!(wut(Atom(5)), Ok(Atom(1)));
}

#[test]
fn test_tis() {
    assert_eq!(tis(cell(Atom(1), Atom(1))), Ok(Atom(0)));
    assert_eq!(tis(cell(Atom(1), Atom(2))), Ok(Atom(1)));
    assert_eq!(tis(Atom(5)), Err(Error(Atom(5))))
}

#[test]
fn test_lus() {
    assert_eq!(lus(Atom(5)), Ok(Atom(6)));
    assert_eq!(
        lus(cell(Atom(0), Atom(1))),
        Err(Error(Cell(Box::new((Atom(0), Atom(1))))))
    )
}

#[test]
fn test_net() {
    assert_eq!(
        net(cell(Atom(1), cell(Atom(531), cell(Atom(25), Atom(99))))),
        Ok(cell(Atom(531), cell(Atom(25), Atom(99))))
    );
    assert_eq!(
        net(cell(Atom(6), cell(Atom(531), cell(Atom(25), Atom(99))))),
        Ok(Atom(25))
    );
    assert_eq!(
        net(cell(Atom(3), cell(Atom(531), cell(Atom(25), Atom(99))))),
        Ok(cell(Atom(25), Atom(99)))
    );
}

#[test]
fn test_hax() {
    assert_eq!(
        hax(cell(Atom(2), cell(Atom(11), cell(Atom(22), Atom(33))))),
        Ok(cell(Atom(11), Atom(33)))
    );
    assert_eq!(
        hax(cell(Atom(3), cell(Atom(11), cell(Atom(22), Atom(33))))),
        Ok(cell(Atom(22), Atom(11)))
    );
    assert_eq!(
        hax(cell(
            Atom(5),
            cell(Atom(11), cell(cell(Atom(22), Atom(33)), Atom(44)))
        )),
        Ok(cell(cell(Atom(22), Atom(11)), Atom(44)))
    )
}

#[test]
fn wut_on_deep_cell_is_zero() {
    assert_eq!(wut(tree()), Ok(Atom(0)));
    assert_eq!(wut(Atom(0)), Ok(Atom(1)));
}

#[test]
fn lus_wraps_at_the_top_of_the_width() {
    assert_eq!(lus(Atom(0)), Ok(Atom(1)));
    assert_eq!(lus(Atom(u64::MAX - 1)), Ok(Atom(u64::MAX)));
    assert_eq!(lus(Atom(u64::MAX)), Ok(Atom(0)));
}

#[test]
fn tis_compares_whole_trees() {
    assert_eq!(tis(cell(tree(), tree())), Ok(Atom(0)));
    assert_eq!(
        tis(cell(tree(), cell(Atom(531), cell(Atom(25), Atom(98))))),
        Ok(Atom(1))
    );
    assert_eq!(tis(cell(Atom(1), cell(Atom(1), Atom(1)))), Ok(Atom(1)));
}

#[test]
fn net_reads_every_slot() {
    assert_eq!(net(cell(Atom(2), tree())), Ok(Atom(531)));
    assert_eq!(net(cell(Atom(7), tree())), Ok(Atom(99)));
    assert_eq!(net(cell(Atom(1), Atom(8))), Ok(Atom(8)));
}

#[test]
fn net_errors() {
    assert_eq!(net(cell(Atom(0), tree())), Err(Error(Atom(0))));
    assert_eq!(net(cell(Atom(0), Atom(4))), Err(Error(Atom(0))));
    assert_eq!(net(Atom(4)), Err(Error(Atom(4))));
    assert_eq!(
        net(cell(cell(Atom(1), Atom(2)), tree())),
        Err(Error(cell(Atom(1), Atom(2))))
    );
    assert_eq!(net(cell(Atom(2), Atom(8))), Err(Error(cell(Atom(2), Atom(8)))));
    assert_eq!(net(cell(Atom(12), tree())), Err(Error(cell(Atom(2), Atom(25)))));
}

#[test]
fn hax_errors() {
    assert_eq!(hax(Atom(3)), Err(Error(Atom(3))));
    assert_eq!(hax(cell(Atom(0), cell(Atom(1), Atom(2)))), Err(Error(Atom(0))));
    assert_eq!(
        hax(cell(cell(Atom(1), Atom(1)), cell(Atom(1), Atom(2)))),
        Err(Error(cell(Atom(1), Atom(1))))
    );
    assert_eq!(hax(cell(Atom(2), Atom(7))), Err(Error(cell(Atom(2), Atom(7)))));
    assert_eq!(
        hax(cell(Atom(2), cell(Atom(1), Atom(7)))),
        Err(Error(cell(Atom(3), Atom(7))))
    );
}

#[test]
fn hax_then_net_reads_back() {
    let w = cell(Atom(7), Atom(8));
    for i in [1u64, 2, 3, 6, 7] {
        assert!(net(cell(Atom(i), tree())).is_ok());
        let edited = hax(cell(Atom(i), cell(w.clone(), tree()))).unwrap();
        assert_eq!(net(cell(Atom(i), edited)), Ok(w.clone()));
    }
}

#[test]
fn slot_one_is_the_whole_tree() {
    assert_eq!(net(cell(Atom(1), tree())), Ok(tree()));
    assert_eq!(hax(cell(Atom(1), cell(Atom(4), tree()))), Ok(Atom(4)));
}

#[test]
fn tar_identity_formula() {
    assert_eq!(tar(cell(Atom(42), cell(Atom(0), Atom(1)))), Ok(Atom(42)));
    assert_eq!(tar(cell(tree(), cell(Atom(0), Atom(1)))), Ok(tree()));
}

#[test]
fn tar_constant_formula() {
    assert_eq!(tar(cell(Atom(42), cell(Atom(1), Atom(99)))), Ok(Atom(99)));
    assert_eq!(tar(cell(tree(), cell(Atom(1), tree()))), Ok(tree()));
}

#[test]
fn tar_increment_of_self() {
    assert_eq!(
        tar(cell(Atom(42), cell(Atom(4), cell(Atom(0), Atom(1))))),
        Ok(Atom(43))
    );
}

fn conditional(test: u64) -> Noun {
    cell(
        Atom(42),
        cell(
            Atom(6),
            cell(
                cell(Atom(1), Atom(test)),
                cell(cell(Atom(1), Atom(111)), cell(Atom(1), Atom(222))),
            ),
        ),
    )
}

#[test]
fn tar_conditional() {
    assert_eq!(tar(conditional(0)), Ok(Atom(111)));
    assert_eq!(tar(conditional(1)), Ok(Atom(222)));
}

#[test]
fn tar_conditional_rejects_other_tests() {
    assert_eq!(
        tar(conditional(2)),
        Err(Error(cell(Atom(2), Atom(2))))
    );
}

#[test]
fn tar_auto_cons() {
    let formula = cell(cell(Atom(0), Atom(1)), cell(Atom(4), cell(Atom(0), Atom(1))));
    assert_eq!(tar(cell(Atom(42), formula)), Ok(cell(Atom(42), Atom(43))));
    let failing = cell(cell(Atom(0), Atom(1)), cell(Atom(4), cell(Atom(1), tree())));
    assert_eq!(tar(cell(Atom(42), failing)), Err(Error(tree())));
}

#[test]
fn tar_each_opcode() {
    let s = || tree();
    // 2: evaluate a quoted formula against the subject
    let two = cell(Atom(2), cell(cell(Atom(0), Atom(1)), cell(Atom(1), cell(Atom(0), Atom(6)))));
    assert_eq!(tar(cell(s(), two)), Ok(Atom(25)));
    // 3 and 5
    assert_eq!(tar(cell(s(), cell(Atom(3), cell(Atom(0), Atom(3))))), Ok(Atom(0)));
    assert_eq!(tar(cell(s(), cell(Atom(3), cell(Atom(0), Atom(2))))), Ok(Atom(1)));
    let five = cell(Atom(5), cell(cell(Atom(0), Atom(2)), cell(Atom(1), Atom(531))));
    assert_eq!(tar(cell(s(), five)), Ok(Atom(0)));
    // 7: compose
    let seven = cell(Atom(7), cell(cell(Atom(0), Atom(3)), cell(Atom(0), Atom(2))));
    assert_eq!(tar(cell(s(), seven)), Ok(Atom(25)));
    // 8: push onto the subject
    let eight = cell(Atom(8), cell(cell(Atom(1), Atom(9)), cell(Atom(0), Atom(1))));
    assert_eq!(tar(cell(Atom(3), eight)), Ok(cell(Atom(9), Atom(3))));
    // 9: invoke the arm at slot 2 of a core whose arm reads the payload
    let core = cell(Atom(1), cell(cell(Atom(0), Atom(3)), Atom(77)));
    let nine = cell(Atom(9), cell(Atom(2), core));
    assert_eq!(tar(cell(Atom(0), nine)), Ok(Atom(77)));
    // 10: edit slot 2 of the subject
    let ten = cell(Atom(10), cell(cell(Atom(2), cell(Atom(1), Atom(5))), cell(Atom(0), Atom(1))));
    assert_eq!(tar(cell(s(), ten)), Ok(cell(Atom(5), cell(Atom(25), Atom(99)))));
    // 11: hints are dropped
    let atom_hint = cell(Atom(11), cell(Atom(37), cell(Atom(0), Atom(2))));
    assert_eq!(tar(cell(s(), atom_hint)), Ok(Atom(531)));
    let cell_hint = cell(
        Atom(11),
        cell(cell(Atom(37), cell(Atom(1), Atom(8))), cell(Atom(0), Atom(2))),
    );
    assert_eq!(tar(cell(s(), cell_hint)), Ok(Atom(531)));
}

#[test]
fn tar_failures() {
    assert_eq!(tar(Atom(4)), Err(Error(Atom(4))));
    assert_eq!(tar(cell(Atom(4), Atom(0))), Err(Error(cell(Atom(4), Atom(0)))));
    let unknown = cell(Atom(1), cell(Atom(12), Atom(0)));
    assert_eq!(tar(unknown.clone()), Err(Error(unknown)));
    let arity = cell(Atom(1), cell(Atom(2), Atom(5)));
    assert_eq!(tar(arity.clone()), Err(Error(arity)));
    let bad_edit = cell(Atom(1), cell(Atom(10), cell(Atom(2), Atom(5))));
    assert_eq!(tar(bad_edit.clone()), Err(Error(bad_edit)));
    let inc_cell = cell(Atom(1), cell(Atom(4), cell(Atom(1), cell(Atom(2), Atom(3)))));
    assert_eq!(tar(inc_cell), Err(Error(cell(Atom(2), Atom(3)))));
    let failing_hint = cell(
        Atom(1),
        cell(Atom(11), cell(cell(Atom(1), cell(Atom(0), Atom(0))), cell(Atom(1), Atom(2)))),
    );
    assert_eq!(tar(failing_hint), Err(Error(Atom(0))));
}

#[test]
fn tar_stops_on_endless_reduction() {
    let spin = cell(Atom(2), cell(cell(Atom(0), Atom(1)), cell(Atom(0), Atom(1))));
    let r = tar(cell(spin.clone(), spin));
    assert!(r.is_err());
}

#[test]
fn tar_within_small_budget() {
    let inc = cell(Atom(42), cell(Atom(4), cell(Atom(0), Atom(1))));
    assert_eq!(tar_within(inc.clone(), 2), Ok(Atom(43)));
    assert_eq!(
        tar_within(inc, 1),
        Err(Error(cell(Atom(42), cell(Atom(0), Atom(1)))))
    );
}

#[test]
fn eval_dispatches() {
    assert_eq!(eval(Expr::Noun(Atom(3))), Ok(Atom(3)));
    assert_eq!(eval(Expr::Wut(Atom(3))), Ok(Atom(1)));
    assert_eq!(eval(Expr::Lus(Atom(3))), Ok(Atom(4)));
    assert_eq!(eval(Expr::Tis(cell(Atom(3), Atom(3)))), Ok(Atom(0)));
    assert_eq!(eval(Expr::Net(cell(Atom(2), tree()))), Ok(Atom(531)));
    assert_eq!(eval(Expr::Hax(cell(Atom(2), cell(Atom(1), tree())))), Ok(cell(Atom(1), cell(Atom(25), Atom(99)))));
    assert_eq!(eval(Expr::Tar(cell(Atom(3), cell(Atom(4), cell(Atom(0), Atom(1)))))), Ok(Atom(4)));
}

#[test]
fn tar_deep_but_finite_reduction() {
    let mut formula = cell(Atom(0), Atom(1));
    for _ in 0..1500 {
        formula = cell(Atom(4), formula);
    }
    assert_eq!(tar(cell(Atom(7), formula)), Ok(Atom(1507)));
}
