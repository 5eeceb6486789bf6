//! Laws that the lifting, the rule table and the composition obey.
use vstd::prelude::*;

use crate::boolean::{
    ex_binary, ex_not, image, negate, splits_free_pair, tri_of, tri_term, BinOp, Tri,
};
use crate::numeric::ge_path;
use crate::path::{path_checked, path_rule};
use crate::shape::{atom, shape, Atom};
use crate::term::{
    one, unc, t_add, t_xor, t_eq, t_eq_k, t_even, t_false1, t_ge_k, t_id, t_if, t_if_k, t_lt_k,
    t_not, t_odd, two, And, Con, Exc, Nand, Nexc, Nor, Nrexc, Or, PathError, Rexc, Term, Ty, Xor,
};

verus! {

/// The binary Boolean operator `op` as a term, constrained by `c`.
pub open spec fn op_term(op: BinOp, c: Con) -> Term {
    match op {
        BinOp::And => Term::And(And { i: c }),
        BinOp::Or => Term::Or(Or { i: c }),
        BinOp::Equals => Term::Eq(crate::term::Eq { ty: Ty::Bool, i: c }),
        BinOp::Xor => Term::Xor(Xor { i: c }),
        BinOp::Nand => Term::Nand(Nand { i: c }),
        BinOp::Nor => Term::Nor(Nor { i: c }),
        BinOp::Exc => Term::Exc(Exc { i: c }),
        BinOp::Nrexc => Term::Nrexc(Nrexc { i: c }),
        BinOp::Rexc => Term::Rexc(Rexc { i: c }),
        BinOp::Nexc => Term::Nexc(Nexc { i: c }),
    }
}

/// The dual of a Boolean operator under negation:
/// `not(op(a, b)) == dual(op)(not(a), not(b))`.
pub open spec fn dual(op: BinOp) -> BinOp {
    match op {
        BinOp::And => BinOp::Or,
        BinOp::Or => BinOp::And,
        BinOp::Equals => BinOp::Xor,
        BinOp::Xor => BinOp::Equals,
        BinOp::Nand => BinOp::Nor,
        BinOp::Nor => BinOp::Nand,
        BinOp::Exc => BinOp::Nrexc,
        BinOp::Nrexc => BinOp::Exc,
        BinOp::Rexc => BinOp::Nexc,
        BinOp::Nexc => BinOp::Rexc,
    }
}

/// Resolves the existential path of a resolved predicate once more.
pub open spec fn then_resolve(o: Option<Con>) -> Option<Con> {
    match o {
        Some(c) => c.existential_path(),
        None => None,
    }
}

/// Whether the condition `co` of a conditional holds of the literal `k`.
pub open spec fn holds_at(co: Term, k: u64) -> bool {
    match co {
        Term::EqK(x) => k == x.k,
        Term::GeK(x) => k >= x.k,
        Term::LtK(x) => k < x.k,
        Term::Even(_) => k % 2 == 0,
        Term::Odd(_) => k % 2 == 1,
        _ => true,
    }
}

/// The branch that a conditional with bound condition selects; any other
/// term stands for itself.
pub open spec fn bound_branch(t: Term) -> Term {
    match t {
        Term::IfK(x) => if holds_at(*x.co, x.k) {
            *x.tr
        } else {
            *x.fa
        },
        _ => t,
    }
}

/// A Boolean constraint's predicate normalises back to the constraint.
proof fn lemma_tri_atom(t: Tri)
    ensures
        tri_of(atom(tri_term(t))) == Some(t),
        atom(tri_term(t)) is True1 <==> t is Any,
{
}

/// Negating both inputs of the dual operator negates the outputs.
proof fn lemma_image_dual(op: BinOp, x: Tri, y: Tri)
    ensures
        image(dual(op), negate(x), negate(y)) == negate(image(op, x, y)),
{
    match op {
        BinOp::And => {},
        BinOp::Or => {},
        BinOp::Equals => {},
        BinOp::Xor => {},
        BinOp::Nand => {},
        BinOp::Nor => {},
        BinOp::Exc => {},
        BinOp::Nrexc => {},
        BinOp::Rexc => {},
        BinOp::Nexc => {},
    }
}

/// A Boolean operator resolves by the Boolean table.
proof fn lemma_op_term_path(op: BinOp, c: Con)
    ensures
        op_term(op, c).existential_path() == ex_binary(op, shape(c)),
        op_term(op, c).constraint() == c,
        path_rule(op_term(op, c), t_not()) == Some(op_term(dual(op), unc())),
        op_term(dual(op), unc()).lift(c) == op_term(dual(op), c),
{
}

/// Lifting a constraint and reading it back gives the constraint: every tag
/// but `true_1`, which carries none, keeps what it is given.
pub proof fn lemma_lift_then_trivial_path(t: Term, c: Con)
    requires
        t !is True1,
    ensures
        t.lift(c).constraint() == c,
{
}

/// Lifting a valid constraint onto a valid term gives a valid term.
pub proof fn lemma_lift_keeps_validity(t: Term, c: Con)
    requires
        t.valid(),
        c.valid(),
    ensures
        t.lift(c).valid(),
{
}

/// Negation turns a binary Boolean operator into its dual, constraints and
/// all: `op{(x, y)}[not] <=> dual(op){(not x, not y)}`.
pub proof fn lemma_constrained_duality(op: BinOp, x: Tri, y: Tri)
    ensures
        path_checked(op_term(op, two(tri_term(x), tri_term(y))), t_not()) == Ok::<
            Term,
            PathError,
        >(op_term(dual(op), two(tri_term(negate(x)), tri_term(negate(y))))),
{
    lemma_tri_atom(x);
    lemma_tri_atom(y);
    lemma_tri_atom(negate(x));
    lemma_tri_atom(negate(y));
    lemma_image_dual(op, x, y);
    let c2 = two(tri_term(x), tri_term(y));
    let n2 = two(tri_term(negate(x)), tri_term(negate(y)));
    lemma_op_term_path(op, c2);
    lemma_op_term_path(dual(op), n2);
    assert(t_not().lift(c2).existential_path() == Some(n2));
    let e2 = ex_binary(op, shape(c2));
    assert(e2 is Some);
    lemma_pair_result(op, x, y);
    assert(t_not().lift(e2.unwrap()).existential_path() == ex_binary(dual(op), shape(n2)));
}

/// Negation turns a binary Boolean operator with one constraint on both
/// arguments into its dual: `op{x}[not] <=> dual(op){not x}`.
pub proof fn lemma_single_constraint_duality(op: BinOp, x: Tri)
    ensures
        path_checked(op_term(op, one(tri_term(x))), t_not()) == Ok::<Term, PathError>(
            op_term(dual(op), one(tri_term(negate(x)))),
        ),
{
    lemma_tri_atom(x);
    lemma_tri_atom(negate(x));
    lemma_image_dual(op, x, x);
    let c1 = one(tri_term(x));
    let n1 = one(tri_term(negate(x)));
    lemma_op_term_path(op, c1);
    lemma_op_term_path(dual(op), n1);
    assert(t_not().lift(c1).existential_path() == Some(n1));
    let e1 = ex_binary(op, shape(c1));
    lemma_tri_atom(image(op, x, x));
    assert(t_not().lift(e1.unwrap()).existential_path() == ex_binary(dual(op), shape(n1)));
}

/// The two derivations of a pair-constrained Boolean operator under
/// negation resolve alike.
proof fn lemma_pair_result(op: BinOp, x: Tri, y: Tri)
    ensures
        ex_binary(op, shape(two(tri_term(x), tri_term(y)))) matches Some(e) && t_not().lift(
            e,
        ).existential_path() == ex_binary(
            dual(op),
            shape(two(tri_term(negate(x)), tri_term(negate(y)))),
        ),
{
    lemma_tri_atom(x);
    lemma_tri_atom(y);
    lemma_tri_atom(negate(x));
    lemma_tri_atom(negate(y));
    lemma_image_dual(op, x, y);
    lemma_tri_atom(image(op, x, y));
    if x is Any && y is Any {
        assert(splits_free_pair(op) == splits_free_pair(dual(op)));
    }
}

/// Addition under parity constraints, seen through `even`: even plus odd
/// is never even, even plus even always is, and odd plus odd resolves to
/// `if((< 2), false_1, even)`, which `even` sees as always true. Each
/// composition passes its check.
pub proof fn lemma_add_parity(ty: Ty)
    requires
        ty.is_nat(),
    ensures
        t_add(ty).lift(two(t_even(ty), t_odd(ty))).existential_path() == Some(one(t_odd(ty))),
        t_add(ty).lift(two(t_odd(ty), t_even(ty))).existential_path() == Some(one(t_odd(ty))),
        t_add(ty).lift(two(t_even(ty), t_even(ty))).existential_path() == Some(one(t_even(ty))),
        t_add(ty).lift(two(t_odd(ty), t_odd(ty))).existential_path() == Some(
            one(t_if(t_lt_k(ty, 2), t_false1(ty), t_even(ty))),
        ),
        path_checked(t_add(ty).lift(two(t_even(ty), t_odd(ty))), t_even(ty)) matches Ok(fg)
            && fg.existential_path() == Some(one(t_not())),
        path_checked(t_add(ty).lift(two(t_odd(ty), t_even(ty))), t_even(ty)) matches Ok(fg)
            && fg.existential_path() == Some(one(t_not())),
        path_checked(t_add(ty).lift(two(t_even(ty), t_even(ty))), t_even(ty)) matches Ok(fg)
            && fg.existential_path() == Some(one(t_id(Ty::Bool))),
        path_checked(t_add(ty).lift(two(t_odd(ty), t_odd(ty))), t_even(ty)) matches Ok(fg)
            && fg.existential_path() == Some(one(t_id(Ty::Bool))),
{
    lemma_add_even_odd(ty);
    lemma_add_odd_even(ty);
    lemma_add_even_even(ty);
    lemma_add_odd_odd(ty);
}

/// The case `(even, odd)` of [`lemma_add_parity`].
proof fn lemma_add_even_odd(ty: Ty)
    requires
        ty.is_nat(),
    ensures
        t_add(ty).lift(two(t_even(ty), t_odd(ty))).existential_path() == Some(one(t_odd(ty))),
        path_checked(t_add(ty).lift(two(t_even(ty), t_odd(ty))), t_even(ty)) matches Ok(fg)
            && fg.existential_path() == Some(one(t_not())),
{
    let (e, o) = (t_even(ty), t_odd(ty));
    let (yes, no) = (t_id(Ty::Bool), t_not());
    assert(t_add(ty).lift(two(e, o)).existential_path() == Some(one(o)));
    assert(e.lift(two(e, o)).existential_path() == Some(two(yes, no)));
    assert(t_eq(Ty::Bool).lift(two(yes, no)).existential_path() == Some(one(no)));
    assert(e.lift(one(o)).existential_path() == Some(one(no)));
    lemma_add_parity_pair(ty, e, o, o, yes, no, no);
}

/// The case `(odd, even)` of [`lemma_add_parity`].
proof fn lemma_add_odd_even(ty: Ty)
    requires
        ty.is_nat(),
    ensures
        t_add(ty).lift(two(t_odd(ty), t_even(ty))).existential_path() == Some(one(t_odd(ty))),
        path_checked(t_add(ty).lift(two(t_odd(ty), t_even(ty))), t_even(ty)) matches Ok(fg)
            && fg.existential_path() == Some(one(t_not())),
{
    let (e, o) = (t_even(ty), t_odd(ty));
    let (yes, no) = (t_id(Ty::Bool), t_not());
    assert(t_add(ty).lift(two(o, e)).existential_path() == Some(one(o)));
    assert(e.lift(two(o, e)).existential_path() == Some(two(no, yes)));
    assert(t_eq(Ty::Bool).lift(two(no, yes)).existential_path() == Some(one(no)));
    assert(e.lift(one(o)).existential_path() == Some(one(no)));
    lemma_add_parity_pair(ty, o, e, o, no, yes, no);
}

/// The case `(even, even)` of [`lemma_add_parity`].
proof fn lemma_add_even_even(ty: Ty)
    requires
        ty.is_nat(),
    ensures
        t_add(ty).lift(two(t_even(ty), t_even(ty))).existential_path() == Some(one(t_even(ty))),
        path_checked(t_add(ty).lift(two(t_even(ty), t_even(ty))), t_even(ty)) matches Ok(fg)
            && fg.existential_path() == Some(one(t_id(Ty::Bool))),
{
    let (e, o) = (t_even(ty), t_odd(ty));
    let (yes, no) = (t_id(Ty::Bool), t_not());
    assert(t_add(ty).lift(two(e, e)).existential_path() == Some(one(e)));
    assert(e.lift(two(e, e)).existential_path() == Some(two(yes, yes)));
    assert(t_eq(Ty::Bool).lift(two(yes, yes)).existential_path() == Some(one(yes)));
    assert(e.lift(one(e)).existential_path() == Some(one(yes)));
    lemma_add_parity_pair(ty, e, e, e, yes, yes, yes);
}

/// The case `(odd, odd)` of [`lemma_add_parity`].
proof fn lemma_add_odd_odd(ty: Ty)
    requires
        ty.is_nat(),
    ensures
        t_add(ty).lift(two(t_odd(ty), t_odd(ty))).existential_path() == Some(
            one(t_if(t_lt_k(ty, 2), t_false1(ty), t_even(ty))),
        ),
        path_checked(t_add(ty).lift(two(t_odd(ty), t_odd(ty))), t_even(ty)) matches Ok(fg)
            && fg.existential_path() == Some(one(t_id(Ty::Bool))),
{
    let (e, o) = (t_even(ty), t_odd(ty));
    let (yes, no) = (t_id(Ty::Bool), t_not());
    let sum = t_if(t_lt_k(ty, 2), t_false1(ty), e);
    assert(atom(t_lt_k(ty, 2)) == Atom::LtK(ty, 2));
    assert(atom(t_false1(ty)) == Atom::False1(ty));
    assert(atom(e) == Atom::Even(ty));
    assert(atom(sum) == Atom::IfLtFalse1Even(ty, 2));
    assert(t_add(ty).lift(two(o, o)).existential_path() == Some(one(sum)));
    assert(e.lift(two(o, o)).existential_path() == Some(two(no, no)));
    assert(t_eq(Ty::Bool).lift(two(no, no)).existential_path() == Some(one(yes)));
    assert(e.lift(one(sum)).existential_path() == Some(one(yes)));
    lemma_add_parity_pair(ty, o, o, sum, no, no, yes);
}

/// One composition of [`lemma_add_parity`]: `add{(a, b)}` resolves to
/// `sum`, `even` sees `a` and `b` as `pa` and `pb`, and `sum` as `ps`.
proof fn lemma_add_parity_pair(ty: Ty, a: Term, b: Term, sum: Term, pa: Term, pb: Term, ps: Term)
    requires
        ty.is_nat(),
        t_add(ty).lift(two(a, b)).existential_path() == Some(one(sum)),
        t_even(ty).lift(two(a, b)).existential_path() == Some(two(pa, pb)),
        t_eq(Ty::Bool).lift(two(pa, pb)).existential_path() == Some(one(ps)),
        t_even(ty).lift(one(sum)).existential_path() == Some(one(ps)),
    ensures
        path_checked(t_add(ty).lift(two(a, b)), t_even(ty)) matches Ok(fg)
            && fg.existential_path() == Some(one(ps)),
{
    assert(path_rule(t_add(ty).lift(two(a, b)), t_even(ty)) == Some(t_eq(Ty::Bool)));
}

/// At the largest value of a width, `(>= max)` under `even` resolves to a
/// conditional whose bound condition holds and selects `not`: no even value
/// reaches the largest, which is odd, so the predicate is constantly false.
/// Under `odd` it selects `true_1`: the largest value is odd, smaller odd
/// values are not.
pub proof fn lemma_ge_max_collapses(ty: Ty)
    requires
        ty.is_nat(),
    ensures
        t_ge_k(ty, ty.max() as u64).lift(one(t_even(ty))).existential_path() matches Some(
            Con::One(p),
        ) && bound_branch(*p) == t_not(),
        t_ge_k(ty, ty.max() as u64).lift(one(t_odd(ty))).existential_path() matches Some(
            Con::One(p),
        ) && bound_branch(*p) == Term::True1,
{
}

/// Resolution of `(>= k)` does not reach a fixed point in one step: its
/// existential path resolves to a second conditional, which resolves back
/// to the first, so resolving three times equals resolving once while
/// resolving twice does not.
pub proof fn lemma_ge_k_period_two(ty: Ty, k: u64)
    requires
        ty.is_nat(),
    ensures
        one(t_ge_k(ty, k)).existential_path() == Some(one(ge_path(ty, k))),
        then_resolve(then_resolve(one(t_ge_k(ty, k)).existential_path())) == one(
            t_ge_k(ty, k),
        ).existential_path(),
        then_resolve(one(t_ge_k(ty, k)).existential_path()) != one(
            t_ge_k(ty, k),
        ).existential_path(),
{
    let p = ge_path(ty, k);
    let q = t_if_k(ty, k, t_eq_k(ty, 0), Term::True1, t_id(Ty::Bool));
    assert(Term::True1.existential_path() == Some(one(t_id(Ty::Bool))));
    assert(t_id(Ty::Bool).existential_path() == Some(one(Term::True1)));
    assert(t_ge_k(ty, k).existential_path() == Some(one(p)));
    assert(one(p).existential_path() == Some(one(q)));
    assert(one(q).existential_path() == Some(one(p)));
    assert(p != q);
}

/// The binary Boolean operator of a term, where it is one; `Equals` stands
/// for `eq` over any domain.
pub open spec fn op_of(f: Term) -> Option<BinOp> {
    match f {
        Term::And(_) => Some(BinOp::And),
        Term::Or(_) => Some(BinOp::Or),
        Term::Eq(_) => Some(BinOp::Equals),
        Term::Xor(_) => Some(BinOp::Xor),
        Term::Nand(_) => Some(BinOp::Nand),
        Term::Nor(_) => Some(BinOp::Nor),
        Term::Exc(_) => Some(BinOp::Exc),
        Term::Nrexc(_) => Some(BinOp::Nrexc),
        Term::Rexc(_) => Some(BinOp::Rexc),
        Term::Nexc(_) => Some(BinOp::Nexc),
        _ => None,
    }
}

/// A term that normalises to a Boolean constraint is that constraint's
/// predicate.
proof fn lemma_atom_tri(t: Term)
    ensures
        tri_of(atom(t)) matches Some(x) ==> t == tri_term(x),
{
}

/// The registered rules never disagree: checked composition by a
/// registered path rule either succeeds or meets a resolution that the
/// table leaves open, and never reports a mismatch.
pub proof fn lemma_registered_rules_agree(f: Term, g: Term)
    ensures
        path_checked(f, g) != Err::<Term, PathError>(PathError::RuntimeEquivalenceMismatch),
{
    if path_rule(f, g) is Some {
        if g == t_not() {
            let op = op_of(f).unwrap();
            assert(f == op_term(op, f.constraint()));
            lemma_boolean_rule_agrees(op, f.constraint());
        } else {
            let ty = f->Add_0.ty;
            assert(f == t_add(ty).lift(f.constraint()));
            lemma_add_rule_agrees(ty, f.constraint(), g);
        }
    }
}

/// [`lemma_registered_rules_agree`] for the Boolean operators under
/// negation.
proof fn lemma_boolean_rule_agrees(op: BinOp, c: Con)
    ensures
        path_checked(op_term(op, c), t_not()) != Err::<Term, PathError>(
            PathError::RuntimeEquivalenceMismatch,
        ),
{
    match c {
        Con::One(t) => lemma_boolean_single_agrees(op, *t),
        Con::Two(a, b) => lemma_boolean_pair_agrees(op, *a, *b),
    }
}

/// [`lemma_boolean_rule_agrees`] for a single constraint.
proof fn lemma_boolean_single_agrees(op: BinOp, t: Term)
    ensures
        path_checked(op_term(op, one(t)), t_not()) != Err::<Term, PathError>(
            PathError::RuntimeEquivalenceMismatch,
        ),
{
    lemma_atom_tri(t);
    if let Some(x) = tri_of(atom(t)) {
        assert(one(t) == one(tri_term(x)));
        lemma_single_constraint_duality(op, x);
    } else {
        lemma_unresolved_negation(op, one(t));
    }
}

/// [`lemma_boolean_rule_agrees`] for a pair of constraints.
proof fn lemma_boolean_pair_agrees(op: BinOp, a: Term, b: Term)
    ensures
        path_checked(op_term(op, two(a, b)), t_not()) != Err::<Term, PathError>(
            PathError::RuntimeEquivalenceMismatch,
        ),
{
    lemma_atom_tri(a);
    lemma_atom_tri(b);
    if let (Some(x), Some(y)) = (tri_of(atom(a)), tri_of(atom(b))) {
        assert(two(a, b) == two(tri_term(x), tri_term(y)));
        lemma_constrained_duality(op, x, y);
    } else {
        lemma_unresolved_negation(op, two(a, b));
    }
}

/// Where negation has no entry for the constraint, composition with it
/// fails as unsupported.
proof fn lemma_unresolved_negation(op: BinOp, c: Con)
    requires
        ex_not(shape(c)) is None,
    ensures
        path_checked(op_term(op, c), t_not()) == Err::<Term, PathError>(
            PathError::UnsupportedConstraint,
        ),
{
    lemma_op_term_path(op, c);
    assert(t_not().lift(c).existential_path() is None);
}

/// [`lemma_registered_rules_agree`] for addition under a parity predicate.
proof fn lemma_add_rule_agrees(ty: Ty, c: Con, g: Term)
    requires
        path_rule(t_add(ty).lift(c), g) is Some,
    ensures
        path_checked(t_add(ty).lift(c), g) != Err::<Term, PathError>(
            PathError::RuntimeEquivalenceMismatch,
        ),
{
    let f = t_add(ty).lift(c);
    assert(ty.is_nat() && (g == t_even(ty) || g == t_odd(ty)));
    if f.existential_path() is None || g.lift(c).existential_path() is None {
        lemma_add_unresolved(ty, c, g);
    } else {
        match c {
            Con::One(t) => {
                assert(atom(*t) == Atom::True1);
                lemma_add_unconstrained(ty, g);
            },
            Con::Two(a, b) => {
                assert(g == t_even(ty));
                assert(atom(*a) == Atom::Even(ty) || atom(*a) == Atom::Odd(ty));
                assert(atom(*b) == Atom::Even(ty) || atom(*b) == Atom::Odd(ty));
                if *a == t_even(ty) {
                    if *b == t_even(ty) {
                        lemma_add_even_even(ty);
                    } else {
                        lemma_add_even_odd(ty);
                    }
                } else {
                    if *b == t_even(ty) {
                        lemma_add_odd_even(ty);
                    } else {
                        lemma_add_odd_odd(ty);
                    }
                }
            },
        }
    }
}

/// Where addition or the parity predicate has no entry for the
/// constraint, composition fails as unsupported.
proof fn lemma_add_unresolved(ty: Ty, c: Con, g: Term)
    requires
        path_rule(t_add(ty).lift(c), g) is Some,
        t_add(ty).lift(c).existential_path() is None || g.lift(c).existential_path() is None,
    ensures
        path_checked(t_add(ty).lift(c), g) == Err::<Term, PathError>(
            PathError::UnsupportedConstraint,
        ),
{
    assert(t_add(ty).lift(c).constraint() == c);
}

/// Unconstrained addition composes with either parity predicate.
proof fn lemma_add_unconstrained(ty: Ty, g: Term)
    requires
        ty.is_nat(),
        g == t_even(ty) || g == t_odd(ty),
    ensures
        path_checked(t_add(ty).lift(one(Term::True1)), g) is Ok,
{
    assert(g.lift(one(Term::True1)).existential_path() == Some(one(Term::True1)));
    assert(t_add(ty).lift(one(Term::True1)).existential_path() == Some(one(Term::True1)));
    assert(t_eq(Ty::Bool).lift(one(Term::True1)).existential_path() == Some(one(Term::True1)));
    assert(t_xor().lift(one(Term::True1)).existential_path() == Some(one(Term::True1)));
}

} // verus!
