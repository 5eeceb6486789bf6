use path_semantics_std::{Con, Constrain, ExPath, Path, PathError, Term, Ty};

fn term_of(c: Con) -> Term {
    match c {
        Con::One(t) => *t,
        Con::Two(_, _) => panic!("expected a single predicate"),
    }
}

fn not() -> Term {
    Term::new_not()
}

fn id_bool() -> Term {
    Term::new_id(Ty::Bool)
}

fn test_bool(a: &Term) {
    a.ex_path().unwrap();
    a.i(Con::unc()).unwrap();
    a.i(Con::one(not())).unwrap();
}

fn bool_bool_constraints() -> Vec<Con> {
    vec![
        Con::unc(),
        Con::one(not()),
        Con::two(not(), Term::True1),
        Con::two(Term::True1, not()),
        Con::two(Term::True1, Term::True1),
        Con::two(not(), not()),
        Con::two(id_bool(), Term::True1),
        Con::two(Term::True1, id_bool()),
        Con::two(id_bool(), id_bool()),
        Con::one(id_bool()),
        Con::two(not(), id_bool()),
        Con::two(id_bool(), not()),
    ]
}

fn test_bool_bool(a: &Term) {
    a.ex_path().unwrap();
    for c in bool_bool_constraints() {
        a.i(c).unwrap().ex_path().unwrap();
    }
}

fn test_bool_bool_path(a: &Term, b: &Term) {
    let n = not();
    let cases = vec![
        (Con::unc(), Con::unc()),
        (Con::two(Term::True1, Term::True1), Con::two(Term::True1, Term::True1)),
        (Con::one(not()), Con::one(id_bool())),
        (Con::two(not(), Term::True1), Con::two(id_bool(), Term::True1)),
        (Con::two(Term::True1, not()), Con::two(Term::True1, id_bool())),
        (Con::two(not(), not()), Con::two(id_bool(), id_bool())),
        (Con::two(not(), id_bool()), Con::two(id_bool(), not())),
        (Con::two(id_bool(), not()), Con::two(not(), id_bool())),
        (Con::two(id_bool(), id_bool()), Con::two(not(), not())),
    ];
    for (from, to) in cases {
        assert_eq!(a.i(from).unwrap().path(&n), Ok(b.i_force(to)));
    }
}

fn test_nat(a: &Term, ty: Ty) {
    let b = a.ex_path().unwrap();
    let c = b.ex_path().unwrap();
    c.ex_path().unwrap();
    a.i(Con::unc()).unwrap().ex_path().unwrap();
    let constraints = vec![
        Con::one(Term::new_even(ty)),
        Con::one(Term::new_odd(ty)),
        Con::one(Term::new_eq_k(ty, 2)),
        Con::one(Term::new_ge_k(ty, 2)),
    ];
    for con in constraints {
        let b = a.i(con).unwrap().ex_path().unwrap();
        let c = b.ex_path().unwrap();
        c.ex_path().unwrap();
    }
    a.i(Con::one(Term::new_lt_k(ty, 2))).unwrap().ex_path().unwrap();
}

fn test_nat_width(ty: Ty) {
    let even = Term::new_even(ty);
    let odd = Term::new_odd(ty);
    let add_2 = Term::new_add_k(ty, 2);
    let ge_2 = term_of(add_2.ex_path().unwrap());
    let lt_2 = Term::new_lt_k(ty, 2);
    let eq_2 = Term::new_eq_k(ty, 2);
    let cond = |co: &Term, tr: &Term, fa: &Term| Term::new_if(co.copy(), tr.copy(), fa.copy());
    let if_ge_2_even_odd = cond(&ge_2, &even, &odd);
    let if_ge_2_odd_even = cond(&ge_2, &odd, &even);
    let if_lt_2_even_odd = cond(&lt_2, &even, &odd);
    let if_lt_2_odd_even = cond(&lt_2, &odd, &even);
    let if_ge_2_even_even = cond(&ge_2, &even, &even);
    let if_lt_2_even_even = cond(&lt_2, &even, &even);

    test_nat(&add_2, ty);
    test_nat(&ge_2, ty);
    test_nat(&lt_2, ty);
    test_nat(&eq_2, ty);
    test_nat(&even, ty);
    test_nat(&odd, ty);
    test_nat(&if_ge_2_even_odd, ty);
    test_nat(&if_ge_2_odd_even, ty);
    test_nat(&if_lt_2_even_odd, ty);
    test_nat(&if_lt_2_odd_even, ty);
    test_nat(&if_ge_2_even_even, ty);
    test_nat(&if_lt_2_even_even, ty);
}

#[test]
fn it_works() {
    let false_1_bool = Term::new_false1(Ty::Bool);
    let n = not();
    let id = id_bool();
    test_bool(&false_1_bool);
    test_bool(&n);
    test_bool(&id);
    test_bool(&Term::True1);

    let and = Term::new_and();
    let or = Term::new_or();
    let eq_bool = Term::new_eq(Ty::Bool);
    let xor = Term::new_xor();
    let nand = Term::new_nand();
    let nor = Term::new_nor();
    let exc = Term::new_exc();
    let nrexc = Term::new_nrexc();
    let rexc = Term::new_rexc();
    let nexc = Term::new_nexc();
    for op in [&and, &or, &eq_bool, &xor, &nand, &nor, &exc, &nrexc, &rexc, &nexc] {
        test_bool_bool(op);
    }

    test_bool_bool_path(&and, &or);
    test_bool_bool_path(&or, &and);
    test_bool_bool_path(&eq_bool, &xor);
    test_bool_bool_path(&xor, &eq_bool);
    test_bool_bool_path(&exc, &nrexc);
    test_bool_bool_path(&nrexc, &exc);
    test_bool_bool_path(&nexc, &rexc);
    test_bool_bool_path(&rexc, &nexc);

    test_nat_width(Ty::U8);
    test_nat_width(Ty::U16);
    test_nat_width(Ty::U32);
    test_nat_width(Ty::U64);

    let ty = Ty::U16;
    let add = Term::new_add(ty);
    let even = Term::new_even(ty);
    let odd = Term::new_odd(ty);
    let add_2 = Term::new_add_k(ty, 2);
    let ge_2 = term_of(add_2.ex_path().unwrap());

    assert!(matches!(add.path(&even), Ok(Term::Eq(_))));
    assert_eq!(add.path(&odd), Ok(Term::new_xor()));

    match &ge_2 {
        Term::GeK(x) => assert_eq!(x.k, 2),
        _ => panic!("expected (>= k)"),
    }

    // `∃(>= k)` alternates between two conditionals.
    let ifkzxt = ge_2.ex_path().unwrap();
    let ifkztx = ifkzxt.ex_path().unwrap();
    let ifkzxt2 = ifkztx.ex_path().unwrap();
    assert_eq!(ifkzxt, ifkzxt2);

    let pairs = vec![
        (even.copy(), odd.copy()),
        (odd.copy(), even.copy()),
        (even.copy(), even.copy()),
        (odd.copy(), odd.copy()),
    ];
    for (l, r) in pairs {
        let a = add.i(Con::two(l, r)).unwrap().ex_path().unwrap();
        let b = a.ex_path().unwrap();
        let c = b.ex_path().unwrap();
        c.ex_path().unwrap();
    }

    let eq_with = |a: Term, b: Term| Term::new_eq(Ty::Bool).i_force(Con::two(a, b));
    assert_eq!(
        add.i(Con::two(even.copy(), odd.copy())).unwrap().path(&even),
        Ok(eq_with(id_bool(), not()))
    );
    assert_eq!(
        add.i(Con::two(even.copy(), even.copy())).unwrap().path(&even),
        Ok(eq_with(id_bool(), id_bool()))
    );
    assert_eq!(
        add.i(Con::two(odd.copy(), even.copy())).unwrap().path(&even),
        Ok(eq_with(not(), id_bool()))
    );
    assert_eq!(
        add.i(Con::two(odd.copy(), odd.copy())).unwrap().path(&even),
        Ok(eq_with(not(), not()))
    );
    assert_ne!(add.path(&even), Err(PathError::RuntimeEquivalenceMismatch));
}
