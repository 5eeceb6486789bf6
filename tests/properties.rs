use path_semantics_std::{Con, Constrain, ExPath, Path, PathError, Term, TrickDisplay, TriPath, Ty};

fn not() -> Term {
    Term::new_not()
}

fn id_bool() -> Term {
    Term::new_id(Ty::Bool)
}

fn one(t: Term) -> Con {
    Con::one(t)
}

fn widths() -> [Ty; 4] {
    [Ty::U8, Ty::U16, Ty::U32, Ty::U64]
}

fn all_tags() -> Vec<Term> {
    let ty = Ty::U8;
    vec![
        Term::new_false1(Ty::Bool),
        Term::new_id(Ty::Bool),
        Term::new_not(),
        Term::new_or(),
        Term::new_and(),
        Term::new_eq(Ty::Bool),
        Term::new_eq_k(ty, 3),
        Term::new_xor(),
        Term::new_nor(),
        Term::new_nand(),
        Term::new_exc(),
        Term::new_nrexc(),
        Term::new_rexc(),
        Term::new_nexc(),
        Term::new_even(ty),
        Term::new_odd(ty),
        Term::new_add(ty),
        Term::new_add_k(ty, 3),
        Term::new_ge_k(ty, 3),
        Term::new_lt_k(ty, 3),
        Term::new_if_k(ty, 3, Term::new_even(ty), id_bool(), not()),
        Term::new_if(Term::new_lt_k(ty, 2), Term::new_even(ty), Term::new_odd(ty)),
    ]
}

#[test]
fn lift_then_trivial_path_round_trips() {
    let constraints = vec![
        Con::unc(),
        one(not()),
        Con::two(id_bool(), Term::True1),
        one(Term::new_ge_k(Ty::U16, 9)),
    ];
    for t in all_tags() {
        for c in &constraints {
            assert_eq!(t.i_force(c.copy()).tri_path(), c.copy());
        }
    }
    // `true_1` carries no constraint.
    assert_eq!(Term::True1.i_force(one(not())), Term::True1);
    assert_eq!(Term::True1.tri_path(), Con::unc());
}

#[test]
fn lifting_keeps_literal_and_domain() {
    let t = Term::new_ge_k(Ty::U32, 17).i_force(one(Term::new_odd(Ty::U32)));
    match t {
        Term::GeK(x) => {
            assert_eq!(x.k, 17);
            assert_eq!(x.ty, Ty::U32);
            assert_eq!(x.i, one(Term::new_odd(Ty::U32)));
        }
        _ => panic!("lifting changed the tag"),
    }
}

#[test]
fn boolean_dualities() {
    let pairs = vec![
        (Term::new_and(), Term::new_or()),
        (Term::new_or(), Term::new_and()),
        (Term::new_eq(Ty::Bool), Term::new_xor()),
        (Term::new_xor(), Term::new_eq(Ty::Bool)),
        (Term::new_nand(), Term::new_nor()),
        (Term::new_nor(), Term::new_nand()),
        (Term::new_exc(), Term::new_nrexc()),
        (Term::new_nrexc(), Term::new_exc()),
        (Term::new_rexc(), Term::new_nexc()),
        (Term::new_nexc(), Term::new_rexc()),
    ];
    for (f, h) in pairs {
        assert_eq!(f.path(&not()), Ok(h.copy()));
        assert_eq!(f.path_force(&not()), Ok(h));
    }
}

#[test]
fn and_under_not_example() {
    let and = Term::new_and();
    let or = Term::new_or();
    let n = not();
    let id = id_bool();
    assert_eq!(and.path(&n), Ok(or.copy()));
    assert_eq!(or.path(&n), Ok(and.copy()));
    assert_eq!(
        and.i(Con::two(n.copy(), n.copy())).unwrap().path(&n),
        Ok(or.i_force(Con::two(id.copy(), id.copy())))
    );
    assert_eq!(
        and.i(Con::two(id.copy(), id.copy())).unwrap().path(&n),
        Ok(or.i_force(Con::two(n.copy(), n.copy())))
    );
    assert_eq!(
        and.i(Con::two(n.copy(), Term::True1)).unwrap().path(&n),
        Ok(or.i_force(Con::two(id.copy(), Term::True1)))
    );
    assert_eq!(
        and.i(Con::two(Term::True1, n.copy())).unwrap().path(&n),
        Ok(or.i_force(Con::two(Term::True1, id.copy())))
    );
    assert_eq!(
        and.i(Con::two(Term::True1, Term::True1)).unwrap().path(&n),
        Ok(or.i_force(Con::two(Term::True1, Term::True1)))
    );
}

#[test]
fn boolean_table_entries() {
    let and = Term::new_and();
    // One argument forced false: `and` is always false.
    assert_eq!(and.i_force(Con::two(not(), Term::True1)).ex_path(), Ok(one(not())));
    assert_eq!(and.i_force(Con::two(id_bool(), id_bool())).ex_path(), Ok(one(id_bool())));
    assert_eq!(and.i_force(Con::two(id_bool(), Term::True1)).ex_path(), Ok(Con::unc()));
    assert_eq!(
        and.i_force(Con::two(Term::True1, Term::True1)).ex_path(),
        Ok(Con::two(Term::True1, Term::True1))
    );
    assert_eq!(
        Term::new_nor().i_force(Con::two(Term::True1, Term::True1)).ex_path(),
        Ok(Con::two(Term::True1, Term::True1))
    );
    assert_eq!(
        Term::new_exc().i_force(Con::two(Term::True1, Term::True1)).ex_path(),
        Ok(Con::unc())
    );
    assert_eq!(Term::new_exc().i_force(Con::two(id_bool(), not())).ex_path(), Ok(one(id_bool())));
    assert_eq!(Term::new_xor().i_force(one(id_bool())).ex_path(), Ok(one(not())));
    assert_eq!(Term::new_eq(Ty::Bool).i_force(one(not())).ex_path(), Ok(one(id_bool())));
    assert_eq!(Term::new_nexc().i_force(Con::two(id_bool(), not())).ex_path(), Ok(one(not())));
    assert_eq!(not().i_force(Con::two(not(), id_bool())).ex_path(), Ok(Con::two(id_bool(), not())));
    assert_eq!(Term::True1.ex_path(), Ok(one(id_bool())));
    assert_eq!(Term::new_false1(Ty::U8).i_force(one(not())).ex_path(), Ok(one(not())));
}

#[test]
fn add_parity_through_even() {
    for ty in widths() {
        let add = Term::new_add(ty);
        let even = Term::new_even(ty);
        let odd = Term::new_odd(ty);
        let even_odd = add.i_force(Con::two(even.copy(), odd.copy()));
        assert_eq!(even_odd.ex_path(), Ok(one(odd.copy())));
        assert_eq!(even_odd.path(&even).unwrap().ex_path(), Ok(one(not())));
        let even_even = add.i_force(Con::two(even.copy(), even.copy()));
        assert_eq!(even_even.ex_path(), Ok(one(even.copy())));
        assert_eq!(even_even.path(&even).unwrap().ex_path(), Ok(one(id_bool())));
        let odd_odd = add.i_force(Con::two(odd.copy(), odd.copy()));
        let expected = Term::new_if(Term::new_lt_k(ty, 2), Term::new_false1(ty), even.copy());
        assert_eq!(odd_odd.ex_path(), Ok(one(expected)));
        assert_eq!(odd_odd.ex_path().unwrap().ex_path().unwrap().ex_path(), Ok(one(id_bool())));
        assert_eq!(odd_odd.path(&even).unwrap().ex_path(), Ok(one(id_bool())));
    }
}

#[test]
fn ge_max_collapses_for_each_width() {
    let maxima = [
        (Ty::U8, u8::MAX as u64),
        (Ty::U16, u16::MAX as u64),
        (Ty::U32, u32::MAX as u64),
        (Ty::U64, u64::MAX),
    ];
    for (ty, max) in maxima {
        assert_eq!(ty.max_value(), max);
        let ge_max = Term::new_ge_k(ty, max);
        let even = ge_max.i_force(one(Term::new_even(ty))).ex_path();
        let expected = Term::new_if_k(ty, max, Term::new_eq_k(ty, max), not(), Term::True1);
        assert_eq!(even, Ok(one(expected)));
        let odd = ge_max.i_force(one(Term::new_odd(ty))).ex_path();
        let expected = Term::new_if_k(ty, max, Term::new_lt_k(ty, 2), id_bool(), Term::True1);
        assert_eq!(odd, Ok(one(expected)));
    }
}

#[test]
fn ge_k_resolution_has_period_two() {
    let x = one(Term::new_ge_k(Ty::U8, 2));
    let r1 = x.ex_path().unwrap();
    let r2 = r1.ex_path().unwrap();
    let r3 = r2.ex_path().unwrap();
    assert_eq!(r3, r1);
    assert_ne!(r2, r1);
    let p = Term::new_if_k(Ty::U8, 2, Term::new_eq_k(Ty::U8, 0), id_bool(), Term::True1);
    assert_eq!(r1, one(p));
}

#[test]
fn inconsistent_rule_is_a_mismatch() {
    // `and[not] <=> and` is wrong: with the first argument forced false and
    // the second forced true, `and` yields false, whose negation is true,
    // while `and` on the negated arguments yields false.
    let f = Term::new_and().i_force(Con::two(not(), id_bool()));
    assert_eq!(f.path_by(&not(), &Term::new_and()), Err(PathError::RuntimeEquivalenceMismatch));
    assert_eq!(
        f.path_by(&not(), &Term::new_or()),
        Ok(Term::new_or().i_force(Con::two(id_bool(), not()))),
    );
    // The unchecked composition does not notice.
    assert!(f.path_force_by(&not(), &Term::new_and()).is_ok());
}

#[test]
fn registered_rules_never_mismatch() {
    let constraints = vec![
        Con::unc(),
        one(not()),
        one(id_bool()),
        Con::two(not(), Term::True1),
        Con::two(Term::True1, not()),
        Con::two(not(), not()),
        Con::two(id_bool(), Term::True1),
        Con::two(Term::True1, id_bool()),
        Con::two(id_bool(), id_bool()),
        Con::two(not(), id_bool()),
        Con::two(id_bool(), not()),
        Con::two(Term::True1, Term::True1),
    ];
    let ops = vec![
        Term::new_and(),
        Term::new_or(),
        Term::new_eq(Ty::Bool),
        Term::new_xor(),
        Term::new_nand(),
        Term::new_nor(),
        Term::new_exc(),
        Term::new_nrexc(),
        Term::new_rexc(),
        Term::new_nexc(),
    ];
    for op in &ops {
        for c in &constraints {
            let r = op.i_force(c.copy()).path(&not());
            assert_ne!(r, Err(PathError::RuntimeEquivalenceMismatch));
            assert!(r.is_ok());
        }
    }
}

#[test]
fn unsupported_constraints_are_errors() {
    assert_eq!(id_bool().i_force(one(id_bool())).ex_path(), Err(PathError::UnsupportedConstraint));
    assert_eq!(id_bool().i(one(id_bool())), Err(PathError::UnsupportedConstraint));
    assert_eq!(
        Term::new_odd(Ty::U8).i_force(
            Con::two(Term::new_even(Ty::U8), Term::new_odd(Ty::U8)),
        ).ex_path(),
        Err(PathError::UnsupportedConstraint)
    );
    // Widths must agree.
    assert_eq!(
        Term::new_even(Ty::U8).i_force(one(Term::new_odd(Ty::U16))).ex_path(),
        Err(PathError::UnsupportedConstraint)
    );
    assert_eq!(Con::two(not(), not()).ex_path(), Err(PathError::UnsupportedConstraint));
    // No path rule for this pair.
    assert_eq!(
        Term::new_and().path(&Term::new_even(Ty::U8)),
        Err(PathError::UnsupportedConstraint),
    );
    assert_eq!(Term::new_and().path_force(&id_bool()), Err(PathError::UnsupportedConstraint));
    // A bound conditional under a constraint has no entry.
    let ifk = Term::new_if_k(Ty::U8, 1, Term::new_odd(Ty::U8), id_bool(), not());
    assert_eq!(ifk.i_force(one(not())).ex_path(), Err(PathError::UnsupportedConstraint));
}

#[test]
fn literal_addition_sums_within_width() {
    let add_k = Term::new_add_k(Ty::U8, 200);
    assert_eq!(
        add_k.i_force(one(Term::new_eq_k(Ty::U8, 55))).ex_path(),
        Ok(one(Term::new_eq_k(Ty::U8, 255))),
    );
    assert_eq!(
        add_k.i_force(one(Term::new_ge_k(Ty::U8, 7))).ex_path(),
        Ok(one(Term::new_ge_k(Ty::U8, 207))),
    );
    assert_eq!(
        add_k.i_force(one(Term::new_eq_k(Ty::U8, 56))).ex_path(),
        Err(PathError::UnsupportedConstraint)
    );
    let add_max = Term::new_add_k(Ty::U64, u64::MAX);
    assert_eq!(
        add_max.i_force(one(Term::new_ge_k(Ty::U64, 1))).ex_path(),
        Err(PathError::UnsupportedConstraint)
    );
    assert_eq!(
        add_max.i_force(one(Term::new_eq_k(Ty::U64, 0))).ex_path(),
        Ok(one(Term::new_eq_k(Ty::U64, u64::MAX))),
    );
}

#[test]
fn runtime_conditional_with_equal_branches_reduces() {
    let ty = Ty::U32;
    let c = Term::new_if(Term::new_lt_k(ty, 5), Term::new_odd(ty), Term::new_odd(ty));
    assert_eq!(c.i_force(one(Term::new_even(ty))).ex_path(), Ok(one(not())));
    assert_eq!(
        c.i_force(one(Term::new_eq_k(ty, 3))).ex_path(),
        Term::new_odd(ty).i_force(one(Term::new_eq_k(ty, 3))).ex_path()
    );
}

#[test]
fn bound_conditional_resolves_branchwise() {
    let ty = Ty::U16;
    let t = Term::new_if_k(ty, 4, Term::new_even(ty), id_bool(), not());
    assert_eq!(
        t.ex_path(),
        Ok(one(Term::new_if_k(ty, 4, Term::new_even(ty), Term::True1, Term::True1)))
    );
}

#[test]
fn numeric_table_entries() {
    let ty = Ty::U8;
    assert_eq!(
        Term::new_even(ty).i_force(one(Term::new_eq_k(ty, 6))).ex_path(),
        Ok(one(Term::new_if_k(ty, 6, Term::new_even(ty), id_bool(), not())))
    );
    assert_eq!(
        Term::new_eq_k(ty, 4).i_force(one(Term::new_eq_k(ty, 9))).ex_path(),
        Ok(one(Term::new_if_k(ty, 9, Term::new_eq_k(ty, 4), id_bool(), not())))
    );
    assert_eq!(
        Term::new_ge_k(ty, 4).i_force(one(Term::new_ge_k(ty, 9))).ex_path(),
        Ok(one(Term::new_if_k(ty, 9, Term::new_lt_k(ty, 4), Term::True1, id_bool())))
    );
    assert_eq!(
        Term::new_lt_k(ty, 4).ex_path(),
        Ok(one(Term::new_if_k(ty, 4, Term::new_eq_k(ty, 0), not(), Term::True1)))
    );
    let cond = Term::new_if(Term::new_ge_k(ty, 3), Term::new_even(ty), Term::new_odd(ty));
    assert_eq!(cond.i_force(one(Term::new_even(ty))).ex_path(), Term::new_ge_k(ty, 3).ex_path());
    assert_eq!(cond.i_force(one(Term::new_odd(ty))).ex_path(), Term::new_lt_k(ty, 3).ex_path());
    assert_eq!(cond.ex_path(), Ok(Con::unc()));
}

#[test]
fn rendering() {
    assert_eq!(Term::True1.render(), "true_1");
    assert_eq!(Term::new_and().render(), "and");
    assert_eq!(Term::new_and().i_force(one(not())).render(), "and{not}");
    assert_eq!(Term::new_and().i_force(Con::two(not(), Term::True1)).render(), "and{not, true_1}");
    assert_eq!(Term::new_ge_k(Ty::U8, 250).render(), "(>= 250)");
    assert_eq!(
        Term::new_add_k(Ty::U64, 1234567).i_force(one(Term::new_even(Ty::U64))).render(),
        "add(1234567){even}",
    );
    assert_eq!(
        Term::new_if_k(Ty::U8, 2, Term::new_eq_k(Ty::U8, 0), id_bool(), Term::True1).render(),
        "if (= 0)(2) {id} else {true_1}"
    );
    assert_eq!(
        Term::new_if(
            Term::new_lt_k(Ty::U8, 2),
            Term::new_false1(Ty::U8),
            Term::new_even(Ty::U8),
        ).render(),
        "if((< 2), false_1, even)"
    );
    assert_eq!(Term::new_eq_k(Ty::U8, 0).render(), "(= 0)");
}

#[test]
fn copies_and_structural_equality() {
    let t = Term::new_if(
        Term::new_lt_k(Ty::U8, 2),
        Term::new_false1(Ty::U8),
        Term::new_even(Ty::U8),
    );
    let u = t.copy();
    assert!(t.same_as(&u));
    assert_eq!(t, u);
    let v = Term::new_if(
        Term::new_lt_k(Ty::U8, 3),
        Term::new_false1(Ty::U8),
        Term::new_even(Ty::U8),
    );
    assert!(!t.same_as(&v));
    assert!(!Term::new_ge_k(Ty::U8, 2).same_as(&Term::new_ge_k(Ty::U16, 2)));
}

#[test]
fn negation_resolves_every_boolean_pair() {
    assert_eq!(
        not().i_force(Con::two(id_bool(), Term::True1)).ex_path(),
        Ok(Con::two(not(), Term::True1))
    );
    assert_eq!(
        not().i_force(Con::two(Term::True1, id_bool())).ex_path(),
        Ok(Con::two(Term::True1, not()))
    );
    assert_eq!(
        Term::new_and().i_force(Con::two(id_bool(), Term::True1)).path(&not()),
        Ok(Term::new_or().i_force(Con::two(not(), Term::True1)))
    );
    assert_eq!(
        Term::new_nor().i_force(Con::two(Term::True1, Term::True1)).path(&not()),
        Ok(Term::new_nand().i_force(Con::two(Term::True1, Term::True1)))
    );
    assert_eq!(
        Term::new_nand().i_force(Con::two(Term::True1, Term::True1)).path(&not()),
        Ok(Term::new_nor().i_force(Con::two(Term::True1, Term::True1)))
    );
}

#[test]
fn less_than_under_odd_collapses_below_two() {
    let ty = Ty::U8;
    for k in [0u64, 1, 2, 9] {
        let r = Term::new_lt_k(ty, k).i_force(one(Term::new_odd(ty))).ex_path();
        let expected = Term::new_if_k(ty, k, Term::new_lt_k(ty, 2), not(), Term::True1);
        assert_eq!(r, Ok(one(expected)));
    }
}

#[test]
fn equality_under_less_than() {
    let ty = Ty::U8;
    // `(= 0)` on inputs below 5: `x = 0` is admitted, so the output is not
    // constantly false; the condition `k >= k2` fails at `k = 0, k2 = 5`.
    let r = Term::new_eq_k(ty, 0).i_force(one(Term::new_lt_k(ty, 5))).ex_path();
    let inner = Term::new_if_k(ty, 0, Term::new_ge_k(ty, 5), not(), Term::True1);
    let expected = Term::new_if_k(ty, 5, Term::new_eq_k(ty, 0), Term::new_false1(Ty::Bool), inner);
    assert_eq!(r, Ok(one(expected)));
    // `(= 7)` on inputs below 5 is never true.
    let r = Term::new_eq_k(ty, 7).i_force(one(Term::new_lt_k(ty, 5))).ex_path();
    let inner = Term::new_if_k(ty, 7, Term::new_ge_k(ty, 5), not(), Term::True1);
    let expected = Term::new_if_k(ty, 5, Term::new_eq_k(ty, 0), Term::new_false1(Ty::Bool), inner);
    assert_eq!(r, Ok(one(expected)));
}

#[test]
fn conditional_on_less_than_under_at_least() {
    let ty = Ty::U8;
    let cond = Term::new_if(Term::new_lt_k(ty, 2), Term::new_odd(ty), Term::new_even(ty));
    let r = cond.i_force(one(Term::new_ge_k(ty, 3))).ex_path();
    let from = Term::new_if_k(ty, 3, Term::new_eq_k(ty, 255), not(), Term::True1);
    let expected = Term::new_if_k(ty, 3, Term::new_ge_k(ty, 2), from, Term::True1);
    assert_eq!(r, Ok(one(expected)));
    let cond = Term::new_if(Term::new_lt_k(ty, 2), Term::new_even(ty), Term::new_odd(ty));
    let r = cond.i_force(one(Term::new_ge_k(ty, 255))).ex_path();
    let from = Term::new_if_k(ty, 255, Term::new_eq_k(ty, 255), id_bool(), Term::True1);
    let expected = Term::new_if_k(ty, 255, Term::new_ge_k(ty, 2), from, Term::True1);
    assert_eq!(r, Ok(one(expected)));
}

#[test]
fn at_least_under_odd() {
    let ty = Ty::U16;
    let r = Term::new_ge_k(ty, 1).i_force(one(Term::new_odd(ty))).ex_path();
    let expected = Term::new_if_k(ty, 1, Term::new_lt_k(ty, 2), id_bool(), Term::True1);
    assert_eq!(r, Ok(one(expected)));
}

#[test]
fn bound_parity_conditional_admits_both_outputs() {
    let ty = Ty::U8;
    for k in [2u64, 3] {
        let sum_even = Term::new_add_k(ty, k).i_force(one(Term::new_even(ty))).ex_path().unwrap();
        assert_eq!(sum_even.ex_path(), Ok(Con::unc()));
    }
}

#[test]
fn literal_validity() {
    assert!(Term::new_ge_k(Ty::U8, 255).is_valid());
    assert!(!Term::new_ge_k(Ty::U8, 256).is_valid());
    assert!(!Term::new_ge_k(Ty::U8, 300).is_valid());
    assert!(Term::new_ge_k(Ty::U16, 300).is_valid());
    let nested =
        Term::new_if(Term::new_lt_k(Ty::U8, 1000), Term::new_even(Ty::U8), Term::new_odd(Ty::U8));
    assert!(!nested.is_valid());
    let constrained = Term::new_even(Ty::U8).i_force(one(Term::new_eq_k(Ty::U8, 256)));
    assert!(!constrained.is_valid());
    assert!(Con::two(Term::new_eq_k(Ty::U32, 7), Term::True1).is_valid());
}
