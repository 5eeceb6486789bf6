//! What the numeric predicates mean, and the soundness of the numeric rule
//! table against that meaning.
use vstd::prelude::*;

use crate::shape::{atom, Atom};
use crate::term::{
    one, t_add, t_add_k, t_eq_k, t_even, t_false1, t_ge_k, t_if, t_lt_k, t_odd, two, Con, Term, Ty,
};

verus! {

/// Whether the predicate `p`, read over the integers, holds of `x`. A bound
/// conditional evaluates its condition at its literal.
pub open spec fn holds(p: Term, x: int) -> bool
    decreases p,
{
    match p {
        Term::True1 => true,
        Term::False1(_) => false,
        Term::Even(_) => x % 2 == 0,
        Term::Odd(_) => x % 2 == 1,
        Term::EqK(q) => x == q.k,
        Term::GeK(q) => x >= q.k,
        Term::LtK(q) => x < q.k,
        Term::If(q) => if holds(*q.co, x) {
            holds(*q.tr, x)
        } else {
            holds(*q.fa, x)
        },
        Term::IfK(q) => if holds(*q.co, q.k as int) {
            holds(*q.tr, x)
        } else {
            holds(*q.fa, x)
        },
        _ => false,
    }
}

/// Whether the predicted output predicate `q` admits the Boolean output
/// `b`: `true_1` admits both, `id` only true, `not` only false, `false_1`
/// neither.
pub open spec fn admits(q: Term, b: bool) -> bool
    decreases q,
{
    match q {
        Term::True1 => true,
        Term::Id(_) => b,
        Term::Not(_) => !b,
        Term::False1(_) => false,
        Term::IfK(c) => if holds(*c.co, c.k as int) {
            admits(*c.tr, b)
        } else {
            admits(*c.fa, b)
        },
        _ => false,
    }
}

/// Whether resolving `p` under the single constraint `c` predicts the
/// output of `p` on the input `x`.
pub open spec fn predicts(p: Term, c: Term, x: int) -> bool {
    p.lift(one(c)).existential_path() matches Some(Con::One(q)) ==> admits(*q, holds(p, x))
}

/// The largest value of every width is odd.
proof fn lemma_max_odd(ty: Ty)
    requires
        ty.is_nat(),
    ensures
        ty.max() % 2 == 1,
{
}

/// `(>= k)` under a single registered constraint predicts its output on
/// every input in the domain that the constraint admits.
pub proof fn lemma_ge_k_sound(ty: Ty, k: u64, c: Term, x: int)
    requires
        ty.is_nat(),
        0 <= x <= ty.max(),
        holds(c, x),
    ensures
        predicts(t_ge_k(ty, k), c, x),
{
    lemma_max_odd(ty);
    let p = t_ge_k(ty, k);
    match atom(c) {
        Atom::True1 => {
            assert(predicts(p, c, x)) by {
                reveal_with_fuel(admits, 4);
                reveal_with_fuel(holds, 3);
            }
        },
        Atom::Even(t) => {
            assert(predicts(p, c, x)) by {
                reveal_with_fuel(admits, 4);
                reveal_with_fuel(holds, 3);
            }
        },
        Atom::Odd(t) => {
            assert(predicts(p, c, x)) by {
                reveal_with_fuel(admits, 4);
                reveal_with_fuel(holds, 3);
            }
        },
        Atom::EqK(t, k2) => {
            assert(predicts(p, c, x)) by {
                reveal_with_fuel(admits, 4);
                reveal_with_fuel(holds, 3);
            }
        },
        Atom::GeK(t, k2) => {
            assert(predicts(p, c, x)) by {
                reveal_with_fuel(admits, 4);
                reveal_with_fuel(holds, 3);
            }
        },
        Atom::LtK(t, k2) => {
            assert(predicts(p, c, x)) by {
                reveal_with_fuel(admits, 4);
                reveal_with_fuel(holds, 3);
            }
        },
        Atom::IfLtFalse1Even(t, k2) => {
            assert(predicts(p, c, x)) by {
                reveal_with_fuel(admits, 4);
                reveal_with_fuel(holds, 3);
            }
        },
        _ => {
            assert(predicts(p, c, x)) by {
                reveal_with_fuel(admits, 4);
                reveal_with_fuel(holds, 3);
            }
        },
    }
}

/// `(< k)` under a single registered constraint predicts its output on
/// every input in the domain that the constraint admits.
pub proof fn lemma_lt_k_sound(ty: Ty, k: u64, c: Term, x: int)
    requires
        ty.is_nat(),
        0 <= x <= ty.max(),
        holds(c, x),
    ensures
        predicts(t_lt_k(ty, k), c, x),
{
    reveal_with_fuel(admits, 4);
    reveal_with_fuel(holds, 3);
    lemma_max_odd(ty);
}

/// `(= k)` under a single registered constraint predicts its output on
/// every input in the domain that the constraint admits.
pub proof fn lemma_eq_k_sound(ty: Ty, k: u64, c: Term, x: int)
    requires
        ty.is_nat(),
        0 <= x <= ty.max(),
        holds(c, x),
    ensures
        predicts(t_eq_k(ty, k), c, x),
{
    reveal_with_fuel(admits, 4);
    reveal_with_fuel(holds, 3);
    lemma_max_odd(ty);
}

/// `even` and `odd` under a single registered constraint predict their
/// output on every input in the domain that the constraint admits.
pub proof fn lemma_parity_sound(ty: Ty, c: Term, x: int)
    requires
        ty.is_nat(),
        0 <= x <= ty.max(),
        holds(c, x),
    ensures
        predicts(t_even(ty), c, x),
        predicts(t_odd(ty), c, x),
{
    lemma_max_odd(ty);
    lemma_even_sound(ty, c, x);
    lemma_odd_sound(ty, c, x);
}

/// `even` under a single constraint.
proof fn lemma_even_sound(ty: Ty, c: Term, x: int)
    requires
        ty.is_nat(),
        0 <= x <= ty.max(),
        holds(c, x),
        ty.max() % 2 == 1,
    ensures
        predicts(t_even(ty), c, x),
{
    let p = t_even(ty);
    match atom(c) {
        Atom::True1 => {
            assert(predicts(p, c, x)) by {
                reveal_with_fuel(admits, 4);
                reveal_with_fuel(holds, 3);
            }
        },
        Atom::Even(t) => {
            assert(predicts(p, c, x)) by {
                reveal_with_fuel(admits, 4);
                reveal_with_fuel(holds, 3);
            }
        },
        Atom::Odd(t) => {
            assert(predicts(p, c, x)) by {
                reveal_with_fuel(admits, 4);
                reveal_with_fuel(holds, 3);
            }
        },
        Atom::EqK(t, k2) => {
            assert(predicts(p, c, x)) by {
                reveal_with_fuel(admits, 4);
                reveal_with_fuel(holds, 3);
            }
        },
        Atom::GeK(t, k2) => {
            assert(predicts(p, c, x)) by {
                reveal_with_fuel(admits, 4);
                reveal_with_fuel(holds, 3);
            }
        },
        Atom::LtK(t, k2) => {
            assert(predicts(p, c, x)) by {
                reveal_with_fuel(admits, 4);
                reveal_with_fuel(holds, 3);
            }
        },
        Atom::IfLtFalse1Even(t, k2) => lemma_even_under_conditional(ty, c, x),
        _ => {
            assert(predicts(p, c, x)) by {
                reveal_with_fuel(admits, 4);
                reveal_with_fuel(holds, 3);
            }
        },
    }
}

/// `even` under `if((< k), false_1, even)`: the admitted inputs are even.
proof fn lemma_even_under_conditional(ty: Ty, c: Term, x: int)
    requires
        ty.is_nat(),
        holds(c, x),
        atom(c) is IfLtFalse1Even,
    ensures
        predicts(t_even(ty), c, x),
{
    let q = c->If_0;
    let t = atom(c)->IfLtFalse1Even_0;
    reveal_with_fuel(atom, 2);
    assert(atom(*q.tr) == Atom::False1(t) && atom(*q.fa) == Atom::Even(t));
    assert(*q.tr is False1 && *q.fa is Even);
    reveal_with_fuel(holds, 2);
    assert(!holds(*q.tr, x));
    assert(holds(*q.fa, x));
    assert(x % 2 == 0);
}

/// `odd` under a single constraint.
proof fn lemma_odd_sound(ty: Ty, c: Term, x: int)
    requires
        ty.is_nat(),
        0 <= x <= ty.max(),
        holds(c, x),
        ty.max() % 2 == 1,
    ensures
        predicts(t_odd(ty), c, x),
{
    let p = t_odd(ty);
    match atom(c) {
        Atom::True1 => {
            assert(predicts(p, c, x)) by {
                reveal_with_fuel(admits, 4);
                reveal_with_fuel(holds, 3);
            }
        },
        Atom::Even(t) => {
            assert(predicts(p, c, x)) by {
                reveal_with_fuel(admits, 4);
                reveal_with_fuel(holds, 3);
            }
        },
        Atom::Odd(t) => {
            assert(predicts(p, c, x)) by {
                reveal_with_fuel(admits, 4);
                reveal_with_fuel(holds, 3);
            }
        },
        Atom::EqK(t, k2) => {
            assert(predicts(p, c, x)) by {
                reveal_with_fuel(admits, 4);
                reveal_with_fuel(holds, 3);
            }
        },
        Atom::GeK(t, k2) => {
            assert(predicts(p, c, x)) by {
                reveal_with_fuel(admits, 4);
                reveal_with_fuel(holds, 3);
            }
        },
        Atom::LtK(t, k2) => {
            assert(predicts(p, c, x)) by {
                reveal_with_fuel(admits, 4);
                reveal_with_fuel(holds, 3);
            }
        },
        Atom::IfLtFalse1Even(t, k2) => {
            assert(predicts(p, c, x)) by {
                reveal_with_fuel(admits, 4);
                reveal_with_fuel(holds, 3);
            }
        },
        _ => {
            assert(predicts(p, c, x)) by {
                reveal_with_fuel(admits, 4);
                reveal_with_fuel(holds, 3);
            }
        },
    }
}

/// `even` (when `e` holds) or `odd` over `ty`.
pub open spec fn parity_term(ty: Ty, e: bool) -> Term {
    if e {
        t_even(ty)
    } else {
        t_odd(ty)
    }
}

/// `(>= k)` (when `ge` holds) or `(< k)` over `ty`.
pub open spec fn order_term(ty: Ty, k: u64, ge: bool) -> Term {
    if ge {
        t_ge_k(ty, k)
    } else {
        t_lt_k(ty, k)
    }
}

/// A conditional on the input with an order condition and parity branches,
/// under a single registered constraint, predicts its output on every input
/// in the domain that the constraint admits.
pub proof fn lemma_if_sound(ty: Ty, k: u64, ge: bool, te: bool, fe: bool, c: Term, x: int)
    requires
        ty.is_nat(),
        k <= ty.max(),
        0 <= x <= ty.max(),
        holds(c, x),
    ensures
        predicts(t_if(order_term(ty, k, ge), parity_term(ty, te), parity_term(ty, fe)), c, x),
{
    lemma_max_odd(ty);
    let p = t_if(order_term(ty, k, ge), parity_term(ty, te), parity_term(ty, fe));
    if te == fe {
        let b = parity_term(ty, te);
        assert(p.lift(one(c)).existential_path() == b.lift(one(c)).existential_path());
        assert(holds(p, x) == holds(b, x));
        if te {
            lemma_even_sound(ty, c, x);
        } else {
            lemma_odd_sound(ty, c, x);
        }
    } else if ge {
        if te {
            lemma_if_parity_sound(ty, k, true, true, c, x);
        } else {
            lemma_if_parity_sound(ty, k, true, false, c, x);
        }
    } else {
        if te {
            lemma_if_parity_sound(ty, k, false, true, c, x);
        } else {
            lemma_if_parity_sound(ty, k, false, false, c, x);
        }
    }
}

/// [`lemma_if_sound`] with distinct branches.
proof fn lemma_if_parity_sound(ty: Ty, k: u64, ge: bool, te: bool, c: Term, x: int)
    requires
        ty.is_nat(),
        k <= ty.max(),
        0 <= x <= ty.max(),
        holds(c, x),
        ty.max() % 2 == 1,
    ensures
        predicts(t_if(order_term(ty, k, ge), parity_term(ty, te), parity_term(ty, !te)), c, x),
{
    let p = t_if(order_term(ty, k, ge), parity_term(ty, te), parity_term(ty, !te));
    assert(atom(order_term(ty, k, ge)) == if ge { Atom::GeK(ty, k) } else { Atom::LtK(ty, k) });
    assert(atom(parity_term(ty, te)) == if te { Atom::Even(ty) } else { Atom::Odd(ty) });
    assert(atom(parity_term(ty, !te)) == if te { Atom::Odd(ty) } else { Atom::Even(ty) });
    match atom(c) {
        Atom::True1 => {
            assert(predicts(p, c, x)) by {
                reveal_with_fuel(admits, 4);
                reveal_with_fuel(holds, 3);
            }
        },
        Atom::Even(t) => {
            assert(predicts(p, c, x)) by {
                reveal_with_fuel(admits, 4);
                reveal_with_fuel(holds, 3);
            }
        },
        Atom::Odd(t) => {
            assert(predicts(p, c, x)) by {
                reveal_with_fuel(admits, 4);
                reveal_with_fuel(holds, 3);
            }
        },
        Atom::EqK(t, k2) => {
            assert(predicts(p, c, x)) by {
                reveal_with_fuel(admits, 4);
                reveal_with_fuel(holds, 3);
            }
        },
        Atom::GeK(t, k2) => {
            assert(predicts(p, c, x)) by {
                reveal_with_fuel(admits, 4);
                reveal_with_fuel(holds, 3);
            }
        },
        Atom::LtK(t, k2) => {
            assert(predicts(p, c, x)) by {
                reveal_with_fuel(admits, 4);
                reveal_with_fuel(holds, 3);
            }
        },
        _ => {
            assert(predicts(p, c, x)) by {
                reveal_with_fuel(admits, 4);
                reveal_with_fuel(holds, 3);
            }
        },
    }
}

/// Whether resolving `add(k)` under the single constraint `c` predicts the
/// sum `x + k` as a predicate on the output.
pub open spec fn predicts_sum(ty: Ty, k: u64, c: Term, x: int) -> bool {
    t_add_k(ty, k).lift(one(c)).existential_path() matches Some(Con::One(q)) ==> holds(
        *q,
        x + k,
    )
}

/// `add(k)` under a single registered constraint predicts every sum it
/// forms, within the width, from an input that the constraint admits.
pub proof fn lemma_add_k_sound(ty: Ty, k: u64, c: Term, x: int)
    requires
        ty.is_nat(),
        0 <= x,
        x + k <= ty.max(),
        holds(c, x),
    ensures
        predicts_sum(ty, k, c, x),
{
    match atom(c) {
        Atom::True1 => {
            assert(predicts_sum(ty, k, c, x)) by {
                reveal_with_fuel(admits, 4);
                reveal_with_fuel(holds, 3);
            }
        },
        Atom::Even(t) => {
            assert(predicts_sum(ty, k, c, x)) by {
                reveal_with_fuel(admits, 4);
                reveal_with_fuel(holds, 3);
            }
        },
        Atom::Odd(t) => {
            assert(predicts_sum(ty, k, c, x)) by {
                reveal_with_fuel(admits, 4);
                reveal_with_fuel(holds, 3);
            }
        },
        Atom::EqK(t, k2) => {
            assert(predicts_sum(ty, k, c, x)) by {
                reveal_with_fuel(admits, 4);
                reveal_with_fuel(holds, 3);
            }
        },
        Atom::GeK(t, k2) => {
            assert(predicts_sum(ty, k, c, x)) by {
                reveal_with_fuel(admits, 4);
                reveal_with_fuel(holds, 3);
            }
        },
        Atom::LtK(t, k2) => {
            assert(predicts_sum(ty, k, c, x)) by {
                reveal_with_fuel(admits, 4);
                reveal_with_fuel(holds, 3);
            }
        },
        _ => {
            assert(predicts_sum(ty, k, c, x)) by {
                reveal_with_fuel(admits, 4);
                reveal_with_fuel(holds, 3);
            }
        },
    }
}

/// `add` under a registered pair of constraints predicts every sum it
/// forms, within the width, from inputs that the constraints admit.
pub proof fn lemma_add_sound(ty: Ty, a: Term, b: Term, x: int, y: int)
    requires
        ty.is_nat(),
        0 <= x,
        0 <= y,
        x + y <= ty.max(),
        holds(a, x),
        holds(b, y),
    ensures
        t_add(ty).lift(two(a, b)).existential_path() matches Some(Con::One(q)) ==> holds(
            *q,
            x + y,
        ),
{
    let r = t_add(ty).lift(two(a, b)).existential_path();
    if r is Some {
        assert(atom(a) == Atom::Even(ty) || atom(a) == Atom::Odd(ty));
        assert(atom(b) == Atom::Even(ty) || atom(b) == Atom::Odd(ty));
        if atom(a) == Atom::Even(ty) {
            assert(a == t_even(ty) && x % 2 == 0);
        } else {
            assert(a == t_odd(ty) && x % 2 == 1);
        }
        if atom(b) == Atom::Even(ty) {
            assert(b == t_even(ty) && y % 2 == 0);
        } else {
            assert(b == t_odd(ty) && y % 2 == 1);
        }
        if a == t_odd(ty) && b == t_odd(ty) {
            let q = t_if(t_lt_k(ty, 2), t_false1(ty), t_even(ty));
            assert(r == Some(one(q)));
            assert(x + y >= 2);
            assert(holds(q, x + y)) by {
                reveal_with_fuel(holds, 2);
            }
        }
    }
}

} // verus!
