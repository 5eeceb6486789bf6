//! The rule table over fixed-width unsigned integers.
//!
//! Each prediction is proved sound in `semantics`: it admits every output
//! that the function gives on an input its constraint admits.
use vstd::prelude::*;

use crate::boolean::{ex_binary, BinOp};
use crate::shape::{Atom, Shape};
use crate::term::{
    one, t_eq_k, t_even, t_false1, t_ge_k, t_id, t_if, t_if_k, t_lt_k, t_not, t_odd, two, unc, Con,
    Term, Ty,
};

verus! {

/// `∃(>= k)`: `\(x: bool) = if k == 0 {id(x)} else {true_1(x)}`.
pub open spec fn ge_path(ty: Ty, k: u64) -> Term {
    t_if_k(ty, k, t_eq_k(ty, 0), t_id(Ty::Bool), Term::True1)
}

/// `∃(< k)`: `\(x: bool) = if k == 0 {not(x)} else {true_1(x)}`.
pub open spec fn lt_path(ty: Ty, k: u64) -> Term {
    t_if_k(ty, k, t_eq_k(ty, 0), t_not(), Term::True1)
}

/// `\(x: bool) = if co(k) {id(x)} else {not(x)}`.
pub open spec fn decided_by(ty: Ty, k: u64, co: Term) -> Term {
    t_if_k(ty, k, co, t_id(Ty::Bool), t_not())
}

/// `∃even` (when `even` holds) or `∃odd` over `ty` under a constraint of
/// shape `s`.
pub open spec fn ex_parity(ty: Ty, s: Shape, even: bool) -> Option<Con> {
    match s {
        Shape::One(Atom::True1) => Some(unc()),
        Shape::One(Atom::Even(t)) => if t == ty {
            Some(one(if even { t_id(Ty::Bool) } else { t_not() }))
        } else {
            None
        },
        Shape::One(Atom::Odd(t)) => if t == ty {
            Some(one(if even { t_not() } else { t_id(Ty::Bool) }))
        } else {
            None
        },
        Shape::Two(Atom::Even(t1), Atom::Odd(t2)) => if even && t1 == ty && t2 == ty {
            Some(two(t_id(Ty::Bool), t_not()))
        } else {
            None
        },
        Shape::Two(Atom::Odd(t1), Atom::Even(t2)) => if even && t1 == ty && t2 == ty {
            Some(two(t_not(), t_id(Ty::Bool)))
        } else {
            None
        },
        Shape::Two(Atom::Even(t1), Atom::Even(t2)) => if even && t1 == ty && t2 == ty {
            Some(two(t_id(Ty::Bool), t_id(Ty::Bool)))
        } else {
            None
        },
        Shape::Two(Atom::Odd(t1), Atom::Odd(t2)) => if even && t1 == ty && t2 == ty {
            Some(two(t_not(), t_not()))
        } else {
            None
        },
        Shape::One(Atom::IfLtFalse1Even(t, _)) => if even && t == ty && ty.is_nat() {
            Some(one(t_id(Ty::Bool)))
        } else {
            None
        },
        Shape::One(Atom::EqK(t, k2)) => if t == ty && ty.is_nat() {
            Some(one(decided_by(ty, k2, if even { t_even(ty) } else { t_odd(ty) })))
        } else {
            None
        },
        Shape::One(Atom::GeK(t, k2)) => if t == ty && ty.is_nat() {
            Some(
                one(
                    t_if_k(
                        ty,
                        k2,
                        t_eq_k(ty, ty.max() as u64),
                        if even { t_not() } else { t_id(Ty::Bool) },
                        Term::True1,
                    ),
                ),
            )
        } else {
            None
        },
        Shape::One(Atom::LtK(t, k2)) => if t == ty && ty.is_nat() {
            Some(
                one(
                    t_if_k(
                        ty,
                        k2,
                        t_lt_k(ty, 2),
                        t_if_k(
                            ty,
                            k2,
                            t_eq_k(ty, 0),
                            t_false1(Ty::Bool),
                            if even { t_id(Ty::Bool) } else { t_not() },
                        ),
                        Term::True1,
                    ),
                ),
            )
        } else {
            None
        },
        _ => None,
    }
}

/// `∃eq` over `ty` under a constraint of shape `s`.
pub open spec fn ex_eq(ty: Ty, s: Shape) -> Option<Con> {
    if s == Shape::One(Atom::True1) {
        Some(unc())
    } else if ty == Ty::Bool {
        ex_binary(BinOp::Equals, s)
    } else {
        None
    }
}

/// `∃(= k)` over `ty` under a constraint of shape `s`.
pub open spec fn ex_eq_k(ty: Ty, k: u64, s: Shape) -> Option<Con> {
    match s {
        Shape::One(Atom::True1) => Some(unc()),
        Shape::One(Atom::Even(t)) => if t == ty && ty.is_nat() {
            Some(one(t_if_k(ty, k, t_even(ty), Term::True1, t_not())))
        } else {
            None
        },
        Shape::One(Atom::Odd(t)) => if t == ty && ty.is_nat() {
            Some(one(t_if_k(ty, k, t_odd(ty), Term::True1, t_not())))
        } else {
            None
        },
        Shape::One(Atom::EqK(t, k2)) => if t == ty && ty.is_nat() {
            Some(one(decided_by(ty, k2, t_eq_k(ty, k))))
        } else {
            None
        },
        Shape::One(Atom::GeK(t, k2)) => if t == ty && ty.is_nat() {
            Some(
                one(
                    t_if_k(
                        ty,
                        k,
                        t_lt_k(ty, k2),
                        t_not(),
                        t_if_k(
                            ty,
                            k2,
                            t_eq_k(ty, ty.max() as u64),
                            t_if_k(
                                ty,
                                k,
                                t_eq_k(ty, ty.max() as u64),
                                t_id(Ty::Bool),
                                Term::True1,
                            ),
                            Term::True1,
                        ),
                    ),
                ),
            )
        } else {
            None
        },
        Shape::One(Atom::LtK(t, k2)) => if t == ty && ty.is_nat() {
            Some(
                one(
                    t_if_k(
                        ty,
                        k2,
                        t_eq_k(ty, 0),
                        t_false1(Ty::Bool),
                        t_if_k(ty, k, t_ge_k(ty, k2), t_not(), Term::True1),
                    ),
                ),
            )
        } else {
            None
        },
        _ => None,
    }
}

/// `∃add` over `ty` under a constraint of shape `s`.
pub open spec fn ex_add(ty: Ty, s: Shape) -> Option<Con> {
    match s {
        Shape::One(Atom::True1) => Some(unc()),
        Shape::Two(Atom::Even(t1), Atom::Odd(t2)) => if t1 == ty && t2 == ty && ty.is_nat() {
            Some(one(t_odd(ty)))
        } else {
            None
        },
        Shape::Two(Atom::Odd(t1), Atom::Even(t2)) => if t1 == ty && t2 == ty && ty.is_nat() {
            Some(one(t_odd(ty)))
        } else {
            None
        },
        Shape::Two(Atom::Even(t1), Atom::Even(t2)) => if t1 == ty && t2 == ty && ty.is_nat() {
            Some(one(t_even(ty)))
        } else {
            None
        },
        Shape::Two(Atom::Odd(t1), Atom::Odd(t2)) => if t1 == ty && t2 == ty && ty.is_nat() {
            Some(one(t_if(t_lt_k(ty, 2), t_false1(ty), t_even(ty))))
        } else {
            None
        },
        _ => None,
    }
}

/// `∃add(k)` over `ty` under a constraint of shape `s`. A literal sum that
/// does not fit the width is not registered.
pub open spec fn ex_add_k(ty: Ty, k: u64, s: Shape) -> Option<Con> {
    if !ty.is_nat() {
        None
    } else {
        match s {
            Shape::One(Atom::True1) => Some(one(t_ge_k(ty, k))),
            Shape::One(Atom::Even(t)) => if t == ty {
                Some(
                    one(
                        t_if(
                            t_ge_k(ty, k),
                            t_if_k(ty, k, t_even(ty), t_even(ty), t_odd(ty)),
                            t_false1(ty),
                        ),
                    ),
                )
            } else {
                None
            },
            Shape::One(Atom::Odd(t)) => if t == ty {
                Some(
                    one(
                        t_if(
                            t_ge_k(ty, k),
                            t_if_k(ty, k, t_odd(ty), t_even(ty), t_odd(ty)),
                            t_false1(ty),
                        ),
                    ),
                )
            } else {
                None
            },
            Shape::One(Atom::EqK(t, k2)) => if t == ty && k + k2 <= ty.max() {
                Some(one(t_eq_k(ty, (k + k2) as u64)))
            } else {
                None
            },
            Shape::One(Atom::GeK(t, k2)) => if t == ty && k + k2 <= ty.max() {
                Some(one(t_ge_k(ty, (k + k2) as u64)))
            } else {
                None
            },
            Shape::One(Atom::LtK(t, k2)) => if t == ty && k + k2 <= ty.max() {
                Some(
                    one(
                        t_if_k(
                            ty,
                            k2,
                            t_eq_k(ty, 0),
                            t_false1(ty),
                            t_if(t_ge_k(ty, k), t_lt_k(ty, (k + k2) as u64), t_false1(ty)),
                        ),
                    ),
                )
            } else {
                None
            },
            _ => None,
        }
    }
}

/// `∃(>= k)` over `ty` under a constraint of shape `s`.
pub open spec fn ex_ge_k(ty: Ty, k: u64, s: Shape) -> Option<Con> {
    if !ty.is_nat() {
        None
    } else {
        match s {
            Shape::One(Atom::True1) => Some(one(ge_path(ty, k))),
            Shape::One(Atom::Even(t)) => if t == ty {
                Some(one(t_if_k(ty, k, t_eq_k(ty, ty.max() as u64), t_not(), Term::True1)))
            } else {
                None
            },
            Shape::One(Atom::Odd(t)) => if t == ty {
                Some(one(t_if_k(ty, k, t_lt_k(ty, 2), t_id(Ty::Bool), Term::True1)))
            } else {
                None
            },
            Shape::One(Atom::EqK(t, k2)) => if t == ty {
                Some(one(decided_by(ty, k2, t_ge_k(ty, k))))
            } else {
                None
            },
            Shape::One(Atom::GeK(t, k2)) => if t == ty {
                Some(one(t_if_k(ty, k2, t_lt_k(ty, k), Term::True1, t_id(Ty::Bool))))
            } else {
                None
            },
            Shape::One(Atom::LtK(t, k2)) => if t == ty {
                Some(
                    one(
                        t_if_k(
                            ty,
                            k2,
                            t_eq_k(ty, 0),
                            t_false1(Ty::Bool),
                            t_if_k(ty, k, t_eq_k(ty, 0), t_id(Ty::Bool), Term::True1),
                        ),
                    ),
                )
            } else {
                None
            },
            _ => None,
        }
    }
}

/// `∃(< k)` over `ty` under a constraint of shape `s`.
pub open spec fn ex_lt_k(ty: Ty, k: u64, s: Shape) -> Option<Con> {
    if !ty.is_nat() {
        None
    } else {
        match s {
            Shape::One(Atom::True1) => Some(one(lt_path(ty, k))),
            Shape::One(Atom::Even(t)) => if t == ty {
                Some(one(t_if_k(ty, k, t_eq_k(ty, 0), t_not(), Term::True1)))
            } else {
                None
            },
            Shape::One(Atom::Odd(t)) => if t == ty {
                Some(one(t_if_k(ty, k, t_lt_k(ty, 2), t_not(), Term::True1)))
            } else {
                None
            },
            Shape::One(Atom::EqK(t, k2)) => if t == ty {
                Some(one(decided_by(ty, k2, t_lt_k(ty, k))))
            } else {
                None
            },
            Shape::One(Atom::GeK(t, k2)) => if t == ty {
                Some(
                    one(
                        t_if_k(
                            ty,
                            k2,
                            t_ge_k(ty, k),
                            t_not(),
                            t_if_k(ty, k, t_eq_k(ty, 0), t_not(), Term::True1),
                        ),
                    ),
                )
            } else {
                None
            },
            Shape::One(Atom::LtK(t, k2)) => if t == ty {
                Some(
                    one(
                        t_if_k(
                            ty,
                            k2,
                            t_eq_k(ty, 0),
                            t_false1(Ty::Bool),
                            t_if_k(
                                ty,
                                k,
                                t_eq_k(ty, 0),
                                t_not(),
                                t_if_k(ty, k, t_ge_k(ty, k2), t_id(Ty::Bool), Term::True1),
                            ),
                        ),
                    ),
                )
            } else {
                None
            },
            _ => None,
        }
    }
}

/// The existential path of the condition `co`, or of its complement when
/// `flip` holds: `(>= k)` and `(< k)` are each other's complement.
pub open spec fn cond_path(co: Atom, flip: bool) -> Term {
    match co {
        Atom::GeK(t, k) => if flip { lt_path(t, k) } else { ge_path(t, k) },
        Atom::LtK(t, k) => if flip { ge_path(t, k) } else { lt_path(t, k) },
        _ => Term::True1,
    }
}

/// `if p(k2) {id} else {not}` for the parity atom `p`.
pub open spec fn parity_decided(ty: Ty, k2: u64, p: Atom) -> Term {
    decided_by(ty, k2, if p is Even { t_even(ty) } else { t_odd(ty) })
}

/// The existential path of `if co(x) {tr(x)} else {fa(x)}` with distinct
/// branches, under a constraint of shape `s`. The condition is `(>= k)` or
/// `(< k)`; the branches are parity predicates or the registered
/// combinations with `false_1`.
pub open spec fn ex_if(co: Atom, tr: Atom, fa: Atom, s: Shape) -> Option<Con> {
    match co {
        Atom::GeK(ty, k) => ex_if_cond(co, ty, k, tr, fa, s),
        Atom::LtK(ty, k) => ex_if_cond(co, ty, k, tr, fa, s),
        _ => None,
    }
}

/// Whether `tr` and `fa` are the two parity predicates over `ty`, in
/// either order.
pub open spec fn parity_pair(ty: Ty, tr: Atom, fa: Atom) -> bool {
    (tr == Atom::Even(ty) && fa == Atom::Odd(ty)) || (tr == Atom::Odd(ty) && fa == Atom::Even(ty))
}

/// What the parity branch `b` outputs on the inputs from `k2` up: fixed
/// only where `k2` is the largest value, which is odd.
pub open spec fn branch_from(ty: Ty, k2: u64, b: Atom) -> Term {
    t_if_k(
        ty,
        k2,
        t_eq_k(ty, ty.max() as u64),
        if b is Odd { t_id(Ty::Bool) } else { t_not() },
        Term::True1,
    )
}

/// [`ex_if`] once the condition is known to be `(>= k)` or `(< k)` over `ty`.
pub open spec fn ex_if_cond(co: Atom, ty: Ty, k: u64, tr: Atom, fa: Atom, s: Shape) -> Option<Con> {
    if !ty.is_nat() {
        None
    } else if parity_pair(ty, tr, fa) {
        match s {
            Shape::One(Atom::True1) => Some(unc()),
            Shape::One(Atom::Even(t)) => if t == ty {
                Some(one(cond_path(co, tr is Odd)))
            } else {
                None
            },
            Shape::One(Atom::Odd(t)) => if t == ty {
                Some(one(cond_path(co, tr is Even)))
            } else {
                None
            },
            Shape::One(Atom::EqK(t, k2)) => if t == ty {
                Some(
                    one(
                        t_if_k(
                            ty,
                            k2,
                            if co is GeK { t_ge_k(ty, k) } else { t_lt_k(ty, k) },
                            parity_decided(ty, k2, tr),
                            parity_decided(ty, k2, fa),
                        ),
                    ),
                )
            } else {
                None
            },
            Shape::One(Atom::GeK(t, k2)) => if t == ty {
                if co is LtK {
                    Some(one(t_if_k(ty, k2, t_ge_k(ty, k), branch_from(ty, k2, fa), Term::True1)))
                } else {
                    Some(one(branch_from(ty, k2, tr)))
                }
            } else {
                None
            },
            Shape::One(Atom::LtK(t, k2)) => if t == ty {
                Some(
                    one(
                        t_if_k(
                            ty,
                            k2,
                            t_lt_k(ty, 2),
                            t_if_k(
                                ty,
                                k2,
                                t_eq_k(ty, 0),
                                t_false1(Ty::Bool),
                                cond_path(co, tr is Odd),
                            ),
                            Term::True1,
                        ),
                    ),
                )
            } else {
                None
            },
            _ => None,
        }
    } else if s == Shape::One(Atom::True1) {
        match (co, tr, fa) {
            (Atom::GeK(_, _), Atom::IfKOddEvenOdd(t1, _), Atom::False1(t2)) => if t1 == ty && t2
                == ty {
                Some(unc())
            } else {
                None
            },
            (Atom::GeK(_, _), Atom::IfKEvenEvenOdd(t1, _), Atom::False1(t2)) => if t1 == ty && t2
                == ty {
                Some(unc())
            } else {
                None
            },
            (Atom::LtK(_, _), Atom::False1(t1), Atom::Even(t2)) => if t1 == ty && t2 == ty {
                Some(unc())
            } else {
                None
            },
            _ => None,
        }
    } else {
        None
    }
}

/// `∃(>= k)`: `\(x: bool) = if k == 0 {id(x)} else {true_1(x)}`.
pub fn new_ge_path(ty: Ty, k: u64) -> (r: Term)
    ensures
        r == ge_path(ty, k),
{
    Term::new_if_k(ty, k, Term::new_eq_k(ty, 0), Term::new_id(Ty::Bool), Term::True1)
}

/// `∃(< k)`: `\(x: bool) = if k == 0 {not(x)} else {true_1(x)}`.
pub fn new_lt_path(ty: Ty, k: u64) -> (r: Term)
    ensures
        r == lt_path(ty, k),
{
    Term::new_if_k(ty, k, Term::new_eq_k(ty, 0), Term::new_not(), Term::True1)
}

/// `\(x: bool) = if co(k) {id(x)} else {not(x)}`.
pub fn new_decided_by(ty: Ty, k: u64, co: Term) -> (r: Term)
    ensures
        r == decided_by(ty, k, co),
{
    Term::new_if_k(ty, k, co, Term::new_id(Ty::Bool), Term::new_not())
}

/// `∃even` (when `even` holds) or `∃odd` over `ty` under a constraint of
/// shape `s`.
pub fn parity_ex_path(ty: Ty, s: Shape, even: bool) -> (r: Option<Con>)
    ensures
        r == ex_parity(ty, s, even),
{
    match s {
        Shape::One(Atom::True1) => Some(Con::unc()),
        Shape::One(Atom::Even(t)) => if t == ty {
            Some(Con::one(if even { Term::new_id(Ty::Bool) } else { Term::new_not() }))
        } else {
            None
        },
        Shape::One(Atom::Odd(t)) => if t == ty {
            Some(Con::one(if even { Term::new_not() } else { Term::new_id(Ty::Bool) }))
        } else {
            None
        },
        Shape::Two(Atom::Even(t1), Atom::Odd(t2)) => if even && t1 == ty && t2 == ty {
            Some(Con::two(Term::new_id(Ty::Bool), Term::new_not()))
        } else {
            None
        },
        Shape::Two(Atom::Odd(t1), Atom::Even(t2)) => if even && t1 == ty && t2 == ty {
            Some(Con::two(Term::new_not(), Term::new_id(Ty::Bool)))
        } else {
            None
        },
        Shape::Two(Atom::Even(t1), Atom::Even(t2)) => if even && t1 == ty && t2 == ty {
            Some(Con::two(Term::new_id(Ty::Bool), Term::new_id(Ty::Bool)))
        } else {
            None
        },
        Shape::Two(Atom::Odd(t1), Atom::Odd(t2)) => if even && t1 == ty && t2 == ty {
            Some(Con::two(Term::new_not(), Term::new_not()))
        } else {
            None
        },
        Shape::One(Atom::IfLtFalse1Even(t, _)) => if even && t == ty && ty.is_nat_ty() {
            Some(Con::one(Term::new_id(Ty::Bool)))
        } else {
            None
        },
        Shape::One(Atom::EqK(t, k2)) => if t == ty && ty.is_nat_ty() {
            Some(
                Con::one(
                    new_decided_by(
                        ty,
                        k2,
                        if even { Term::new_even(ty) } else { Term::new_odd(ty) },
                    ),
                ),
            )
        } else {
            None
        },
        Shape::One(Atom::GeK(t, k2)) => if t == ty && ty.is_nat_ty() {
            Some(
                Con::one(
                    Term::new_if_k(
                        ty,
                        k2,
                        Term::new_eq_k(ty, ty.max_value()),
                        if even { Term::new_not() } else { Term::new_id(Ty::Bool) },
                        Term::True1,
                    ),
                ),
            )
        } else {
            None
        },
        Shape::One(Atom::LtK(t, k2)) => if t == ty && ty.is_nat_ty() {
            Some(
                Con::one(
                    Term::new_if_k(
                        ty,
                        k2,
                        Term::new_lt_k(ty, 2),
                        Term::new_if_k(
                            ty,
                            k2,
                            Term::new_eq_k(ty, 0),
                            Term::new_false1(Ty::Bool),
                            if even { Term::new_id(Ty::Bool) } else { Term::new_not() },
                        ),
                        Term::True1,
                    ),
                ),
            )
        } else {
            None
        },
        _ => None,
    }
}

/// `∃eq` over `ty` under a constraint of shape `s`.
pub fn eq_ex_path(ty: Ty, s: Shape) -> (r: Option<Con>)
    ensures
        r == ex_eq(ty, s),
{
    if s == Shape::One(Atom::True1) {
        Some(Con::unc())
    } else if ty == Ty::Bool {
        BinOp::Equals.ex_path(s)
    } else {
        None
    }
}

/// `∃(= k)` over `ty` under a constraint of shape `s`.
pub fn eq_k_ex_path(ty: Ty, k: u64, s: Shape) -> (r: Option<Con>)
    ensures
        r == ex_eq_k(ty, k, s),
{
    match s {
        Shape::One(Atom::True1) => Some(Con::unc()),
        Shape::One(Atom::Even(t)) => if t == ty && ty.is_nat_ty() {
            Some(Con::one(Term::new_if_k(ty, k, Term::new_even(ty), Term::True1, Term::new_not())))
        } else {
            None
        },
        Shape::One(Atom::Odd(t)) => if t == ty && ty.is_nat_ty() {
            Some(Con::one(Term::new_if_k(ty, k, Term::new_odd(ty), Term::True1, Term::new_not())))
        } else {
            None
        },
        Shape::One(Atom::EqK(t, k2)) => if t == ty && ty.is_nat_ty() {
            Some(Con::one(new_decided_by(ty, k2, Term::new_eq_k(ty, k))))
        } else {
            None
        },
        Shape::One(Atom::GeK(t, k2)) => if t == ty && ty.is_nat_ty() {
            Some(
                Con::one(
                    Term::new_if_k(
                        ty,
                        k,
                        Term::new_lt_k(ty, k2),
                        Term::new_not(),
                        Term::new_if_k(
                            ty,
                            k2,
                            Term::new_eq_k(ty, ty.max_value()),
                            Term::new_if_k(
                                ty,
                                k,
                                Term::new_eq_k(ty, ty.max_value()),
                                Term::new_id(Ty::Bool),
                                Term::True1,
                            ),
                            Term::True1,
                        ),
                    ),
                ),
            )
        } else {
            None
        },
        Shape::One(Atom::LtK(t, k2)) => if t == ty && ty.is_nat_ty() {
            Some(
                Con::one(
                    Term::new_if_k(
                        ty,
                        k2,
                        Term::new_eq_k(ty, 0),
                        Term::new_false1(Ty::Bool),
                        Term::new_if_k(ty, k, Term::new_ge_k(ty, k2), Term::new_not(), Term::True1),
                    ),
                ),
            )
        } else {
            None
        },
        _ => None,
    }
}

/// `∃add` over `ty` under a constraint of shape `s`.
pub fn add_ex_path(ty: Ty, s: Shape) -> (r: Option<Con>)
    ensures
        r == ex_add(ty, s),
{
    match s {
        Shape::One(Atom::True1) => Some(Con::unc()),
        Shape::Two(Atom::Even(t1), Atom::Odd(t2)) => if t1 == ty && t2 == ty && ty.is_nat_ty() {
            Some(Con::one(Term::new_odd(ty)))
        } else {
            None
        },
        Shape::Two(Atom::Odd(t1), Atom::Even(t2)) => if t1 == ty && t2 == ty && ty.is_nat_ty() {
            Some(Con::one(Term::new_odd(ty)))
        } else {
            None
        },
        Shape::Two(Atom::Even(t1), Atom::Even(t2)) => if t1 == ty && t2 == ty && ty.is_nat_ty() {
            Some(Con::one(Term::new_even(ty)))
        } else {
            None
        },
        Shape::Two(Atom::Odd(t1), Atom::Odd(t2)) => if t1 == ty && t2 == ty && ty.is_nat_ty() {
            Some(
                Con::one(
                    Term::new_if(Term::new_lt_k(ty, 2), Term::new_false1(ty), Term::new_even(ty)),
                ),
            )
        } else {
            None
        },
        _ => None,
    }
}

/// Whether `k + k2` fits the width `ty`.
fn sum_fits(ty: Ty, k: u64, k2: u64) -> (r: bool)
    ensures
        r == (k + k2 <= ty.max()),
{
    let max = ty.max_value();
    k <= max && k2 <= max - k
}

/// `∃add(k)` over `ty` under a constraint of shape `s`. A literal sum that
/// does not fit the width is not registered.
pub fn add_k_ex_path(ty: Ty, k: u64, s: Shape) -> (r: Option<Con>)
    ensures
        r == ex_add_k(ty, k, s),
{
    if !ty.is_nat_ty() {
        None
    } else {
        match s {
            Shape::One(Atom::True1) => Some(Con::one(Term::new_ge_k(ty, k))),
            Shape::One(Atom::Even(t)) => if t == ty {
                Some(
                    Con::one(
                        Term::new_if(
                            Term::new_ge_k(ty, k),
                            Term::new_if_k(
                                ty,
                                k,
                                Term::new_even(ty),
                                Term::new_even(ty),
                                Term::new_odd(ty),
                            ),
                            Term::new_false1(ty),
                        ),
                    ),
                )
            } else {
                None
            },
            Shape::One(Atom::Odd(t)) => if t == ty {
                Some(
                    Con::one(
                        Term::new_if(
                            Term::new_ge_k(ty, k),
                            Term::new_if_k(
                                ty,
                                k,
                                Term::new_odd(ty),
                                Term::new_even(ty),
                                Term::new_odd(ty),
                            ),
                            Term::new_false1(ty),
                        ),
                    ),
                )
            } else {
                None
            },
            Shape::One(Atom::EqK(t, k2)) => if t == ty && sum_fits(ty, k, k2) {
                Some(Con::one(Term::new_eq_k(ty, k + k2)))
            } else {
                None
            },
            Shape::One(Atom::GeK(t, k2)) => if t == ty && sum_fits(ty, k, k2) {
                Some(Con::one(Term::new_ge_k(ty, k + k2)))
            } else {
                None
            },
            Shape::One(Atom::LtK(t, k2)) => if t == ty && sum_fits(ty, k, k2) {
                Some(
                    Con::one(
                        Term::new_if_k(
                            ty,
                            k2,
                            Term::new_eq_k(ty, 0),
                            Term::new_false1(ty),
                            Term::new_if(
                                Term::new_ge_k(ty, k),
                                Term::new_lt_k(ty, k + k2),
                                Term::new_false1(ty),
                            ),
                        ),
                    ),
                )
            } else {
                None
            },
            _ => None,
        }
    }
}

/// `∃(>= k)` over `ty` under a constraint of shape `s`.
pub fn ge_k_ex_path(ty: Ty, k: u64, s: Shape) -> (r: Option<Con>)
    ensures
        r == ex_ge_k(ty, k, s),
{
    if !ty.is_nat_ty() {
        None
    } else {
        match s {
            Shape::One(Atom::True1) => Some(Con::one(new_ge_path(ty, k))),
            Shape::One(Atom::Even(t)) => if t == ty {
                Some(
                    Con::one(
                        Term::new_if_k(
                            ty,
                            k,
                            Term::new_eq_k(ty, ty.max_value()),
                            Term::new_not(),
                            Term::True1,
                        ),
                    ),
                )
            } else {
                None
            },
            Shape::One(Atom::Odd(t)) => if t == ty {
                Some(
                    Con::one(
                        Term::new_if_k(
                            ty,
                            k,
                            Term::new_lt_k(ty, 2),
                            Term::new_id(Ty::Bool),
                            Term::True1,
                        ),
                    ),
                )
            } else {
                None
            },
            Shape::One(Atom::EqK(t, k2)) => if t == ty {
                Some(Con::one(new_decided_by(ty, k2, Term::new_ge_k(ty, k))))
            } else {
                None
            },
            Shape::One(Atom::GeK(t, k2)) => if t == ty {
                Some(
                    Con::one(
                        Term::new_if_k(
                            ty,
                            k2,
                            Term::new_lt_k(ty, k),
                            Term::True1,
                            Term::new_id(Ty::Bool),
                        ),
                    ),
                )
            } else {
                None
            },
            Shape::One(Atom::LtK(t, k2)) => if t == ty {
                Some(
                    Con::one(
                        Term::new_if_k(
                            ty,
                            k2,
                            Term::new_eq_k(ty, 0),
                            Term::new_false1(Ty::Bool),
                            Term::new_if_k(
                                ty,
                                k,
                                Term::new_eq_k(ty, 0),
                                Term::new_id(Ty::Bool),
                                Term::True1,
                            ),
                        ),
                    ),
                )
            } else {
                None
            },
            _ => None,
        }
    }
}

/// `∃(< k)` over `ty` under a constraint of shape `s`.
pub fn lt_k_ex_path(ty: Ty, k: u64, s: Shape) -> (r: Option<Con>)
    ensures
        r == ex_lt_k(ty, k, s),
{
    if !ty.is_nat_ty() {
        None
    } else {
        match s {
            Shape::One(Atom::True1) => Some(Con::one(new_lt_path(ty, k))),
            Shape::One(Atom::Even(t)) => if t == ty {
                Some(
                    Con::one(
                        Term::new_if_k(ty, k, Term::new_eq_k(ty, 0), Term::new_not(), Term::True1),
                    ),
                )
            } else {
                None
            },
            Shape::One(Atom::Odd(t)) => if t == ty {
                Some(
                    Con::one(
                        Term::new_if_k(ty, k, Term::new_lt_k(ty, 2), Term::new_not(), Term::True1),
                    ),
                )
            } else {
                None
            },
            Shape::One(Atom::EqK(t, k2)) => if t == ty {
                Some(Con::one(new_decided_by(ty, k2, Term::new_lt_k(ty, k))))
            } else {
                None
            },
            Shape::One(Atom::GeK(t, k2)) => if t == ty {
                Some(
                    Con::one(
                        Term::new_if_k(
                            ty,
                            k2,
                            Term::new_ge_k(ty, k),
                            Term::new_not(),
                            Term::new_if_k(
                                ty,
                                k,
                                Term::new_eq_k(ty, 0),
                                Term::new_not(),
                                Term::True1,
                            ),
                        ),
                    ),
                )
            } else {
                None
            },
            Shape::One(Atom::LtK(t, k2)) => if t == ty {
                Some(
                    Con::one(
                        Term::new_if_k(
                            ty,
                            k2,
                            Term::new_eq_k(ty, 0),
                            Term::new_false1(Ty::Bool),
                            Term::new_if_k(
                                ty,
                                k,
                                Term::new_eq_k(ty, 0),
                                Term::new_not(),
                                Term::new_if_k(
                                    ty,
                                    k,
                                    Term::new_ge_k(ty, k2),
                                    Term::new_id(Ty::Bool),
                                    Term::True1,
                                ),
                            ),
                        ),
                    ),
                )
            } else {
                None
            },
            _ => None,
        }
    }
}

/// The existential path of the condition `co`, or of its complement when
/// `flip` holds: `(>= k)` and `(< k)` are each other's complement.
pub fn new_cond_path(co: Atom, flip: bool) -> (r: Term)
    ensures
        r == cond_path(co, flip),
{
    match co {
        Atom::GeK(t, k) => if flip { new_lt_path(t, k) } else { new_ge_path(t, k) },
        Atom::LtK(t, k) => if flip { new_ge_path(t, k) } else { new_lt_path(t, k) },
        _ => Term::True1,
    }
}

/// `if p(k2) {id} else {not}` for the parity atom `p`.
pub fn new_parity_decided(ty: Ty, k2: u64, p: Atom) -> (r: Term)
    ensures
        r == parity_decided(ty, k2, p),
{
    new_decided_by(
        ty,
        k2,
        if matches!(p, Atom::Even(..)) { Term::new_even(ty) } else { Term::new_odd(ty) },
    )
}

/// The existential path of `if co(x) {tr(x)} else {fa(x)}` with distinct
/// branches, under a constraint of shape `s`. The condition is `(>= k)` or
/// `(< k)`; the branches are parity predicates or the registered
/// combinations with `false_1`.
pub fn if_ex_path(co: Atom, tr: Atom, fa: Atom, s: Shape) -> (r: Option<Con>)
    ensures
        r == ex_if(co, tr, fa, s),
{
    match co {
        Atom::GeK(ty, k) => if_cond_ex_path(co, ty, k, tr, fa, s),
        Atom::LtK(ty, k) => if_cond_ex_path(co, ty, k, tr, fa, s),
        _ => None,
    }
}

/// Whether `tr` and `fa` are the two parity predicates over `ty`, in
/// either order.
pub fn is_parity_pair(ty: Ty, tr: Atom, fa: Atom) -> (r: bool)
    ensures
        r == parity_pair(ty, tr, fa),
{
    (tr == Atom::Even(ty) && fa == Atom::Odd(ty)) || (tr == Atom::Odd(ty) && fa == Atom::Even(ty))
}

/// What the parity branch `b` outputs on the inputs from `k2` up.
pub fn new_branch_from(ty: Ty, k2: u64, b: Atom) -> (r: Term)
    ensures
        r == branch_from(ty, k2, b),
{
    Term::new_if_k(
        ty,
        k2,
        Term::new_eq_k(ty, ty.max_value()),
        if matches!(b, Atom::Odd(..)) {
            Term::new_id(Ty::Bool)
        } else {
            Term::new_not()
        },
        Term::True1,
    )
}

/// [`if_ex_path`] once the condition is known to be `(>= k)` or `(< k)` over `ty`.
pub fn if_cond_ex_path(co: Atom, ty: Ty, k: u64, tr: Atom, fa: Atom, s: Shape) -> (r: Option<Con>)
    ensures
        r == ex_if_cond(co, ty, k, tr, fa, s),
{
    if !ty.is_nat_ty() {
        None
    } else if is_parity_pair(ty, tr, fa) {
        match s {
            Shape::One(Atom::True1) => Some(Con::unc()),
            Shape::One(Atom::Even(t)) => if t == ty {
                Some(Con::one(new_cond_path(co, matches!(tr, Atom::Odd(..)))))
            } else {
                None
            },
            Shape::One(Atom::Odd(t)) => if t == ty {
                Some(Con::one(new_cond_path(co, matches!(tr, Atom::Even(..)))))
            } else {
                None
            },
            Shape::One(Atom::EqK(t, k2)) => if t == ty {
                Some(
                    Con::one(
                        Term::new_if_k(
                            ty,
                            k2,
                            if matches!(co, Atom::GeK(..)) {
                                Term::new_ge_k(ty, k)
                            } else {
                                Term::new_lt_k(ty, k)
                            },
                            new_parity_decided(ty, k2, tr),
                            new_parity_decided(ty, k2, fa),
                        ),
                    ),
                )
            } else {
                None
            },
            Shape::One(Atom::GeK(t, k2)) => if t == ty {
                if matches!(co, Atom::LtK(..)) {
                    Some(
                        Con::one(
                            Term::new_if_k(
                                ty,
                                k2,
                                Term::new_ge_k(ty, k),
                                new_branch_from(ty, k2, fa),
                                Term::True1,
                            ),
                        ),
                    )
                } else {
                    Some(Con::one(new_branch_from(ty, k2, tr)))
                }
            } else {
                None
            },
            Shape::One(Atom::LtK(t, k2)) => if t == ty {
                Some(
                    Con::one(
                        Term::new_if_k(
                            ty,
                            k2,
                            Term::new_lt_k(ty, 2),
                            Term::new_if_k(
                                ty,
                                k2,
                                Term::new_eq_k(ty, 0),
                                Term::new_false1(Ty::Bool),
                                new_cond_path(co, matches!(tr, Atom::Odd(..))),
                            ),
                            Term::True1,
                        ),
                    ),
                )
            } else {
                None
            },
            _ => None,
        }
    } else if s == Shape::One(Atom::True1) {
        match (co, tr, fa) {
            (Atom::GeK(_, _), Atom::IfKOddEvenOdd(t1, _), Atom::False1(t2)) => if t1 == ty && t2
                == ty {
                Some(Con::unc())
            } else {
                None
            },
            (Atom::GeK(_, _), Atom::IfKEvenEvenOdd(t1, _), Atom::False1(t2)) => if t1 == ty && t2
                == ty {
                Some(Con::unc())
            } else {
                None
            },
            (Atom::LtK(_, _), Atom::False1(t1), Atom::Even(t2)) => if t1 == ty && t2 == ty {
                Some(Con::unc())
            } else {
                None
            },
            _ => None,
        }
    } else {
        None
    }
}

} // verus!
