//! Normalisation of terms and constraints into the keys of the rule table.
use vstd::prelude::*;

use crate::term::{Con, Term, Ty};

verus! {

/// An unconstrained predicate that the rule table recognises, or `Other`.
#[derive(Clone, Copy, Debug, PartialEq, Eq, Structural)]
pub enum Atom {
    /// `true_1`: unconstrained.
    True1,
    /// `id` on Booleans: forced true.
    IdBool,
    /// `not`: forced false.
    Not,
    False1(Ty),
    Even(Ty),
    Odd(Ty),
    EqK(Ty, u64),
    GeK(Ty, u64),
    LtK(Ty, u64),
    /// `if((< k), false_1, even)`
    IfLtFalse1Even(Ty, u64),
    /// `if even(k) {even} else {odd}`
    IfKEvenEvenOdd(Ty, u64),
    /// `if odd(k) {even} else {odd}`
    IfKOddEvenOdd(Ty, u64),
    Other,
}

/// The normalised shape of a constraint.
#[derive(Clone, Copy, Debug, PartialEq, Eq, Structural)]
pub enum Shape {
    One(Atom),
    Two(Atom, Atom),
}

/// The atom that a term normalises to.
pub open spec fn atom(t: Term) -> Atom
    decreases t,
{
    match t {
        Term::True1 => Atom::True1,
        Term::Id(x) => if x.ty == Ty::Bool && x.i.is_unc() {
            Atom::IdBool
        } else {
            Atom::Other
        },
        Term::Not(x) => if x.i.is_unc() {
            Atom::Not
        } else {
            Atom::Other
        },
        Term::False1(x) => if x.i.is_unc() {
            Atom::False1(x.ty)
        } else {
            Atom::Other
        },
        Term::Even(x) => if x.i.is_unc() {
            Atom::Even(x.ty)
        } else {
            Atom::Other
        },
        Term::Odd(x) => if x.i.is_unc() {
            Atom::Odd(x.ty)
        } else {
            Atom::Other
        },
        Term::EqK(x) => if x.i.is_unc() {
            Atom::EqK(x.ty, x.k)
        } else {
            Atom::Other
        },
        Term::GeK(x) => if x.i.is_unc() {
            Atom::GeK(x.ty, x.k)
        } else {
            Atom::Other
        },
        Term::LtK(x) => if x.i.is_unc() {
            Atom::LtK(x.ty, x.k)
        } else {
            Atom::Other
        },
        Term::If(x) => if x.i.is_unc() {
            match (atom(*x.co), atom(*x.tr), atom(*x.fa)) {
                (Atom::LtK(ty, k), Atom::False1(t1), Atom::Even(t2)) => if t1 == ty && t2 == ty {
                    Atom::IfLtFalse1Even(ty, k)
                } else {
                    Atom::Other
                },
                _ => Atom::Other,
            }
        } else {
            Atom::Other
        },
        Term::IfK(x) => if x.i.is_unc() {
            match (atom(*x.co), atom(*x.tr), atom(*x.fa)) {
                (Atom::Even(t0), Atom::Even(t1), Atom::Odd(t2)) => if t0 == x.ty && t1 == x.ty
                    && t2 == x.ty {
                    Atom::IfKEvenEvenOdd(x.ty, x.k)
                } else {
                    Atom::Other
                },
                (Atom::Odd(t0), Atom::Even(t1), Atom::Odd(t2)) => if t0 == x.ty && t1 == x.ty
                    && t2 == x.ty {
                    Atom::IfKOddEvenOdd(x.ty, x.k)
                } else {
                    Atom::Other
                },
                _ => Atom::Other,
            }
        } else {
            Atom::Other
        },
        _ => Atom::Other,
    }
}

/// The shape that a constraint normalises to.
pub open spec fn shape(c: Con) -> Shape {
    match c {
        Con::One(t) => Shape::One(atom(*t)),
        Con::Two(a, b) => Shape::Two(atom(*a), atom(*b)),
    }
}

impl Con {
    /// Whether this is the unconstrained marker.
    pub fn is_unconstrained(&self) -> (r: bool)
        ensures
            r == self.is_unc(),
    {
        match self {
            Con::One(t) => matches!(**t, Term::True1),
            Con::Two(_, _) => false,
        }
    }

    /// The normalised shape of the constraint.
    pub fn shape(&self) -> (r: Shape)
        ensures
            r == shape(*self),
    {
        match self {
            Con::One(t) => Shape::One(t.atom()),
            Con::Two(a, b) => Shape::Two(a.atom(), b.atom()),
        }
    }
}

impl Term {
    /// The atom that the term normalises to.
    pub fn atom(&self) -> (r: Atom)
        ensures
            r == atom(*self),
        decreases self,
    {
        match self {
            Term::True1 => Atom::True1,
            Term::Id(x) => if matches!(x.ty, Ty::Bool) && x.i.is_unconstrained() {
                Atom::IdBool
            } else {
                Atom::Other
            },
            Term::Not(x) => if x.i.is_unconstrained() {
                Atom::Not
            } else {
                Atom::Other
            },
            Term::False1(x) => if x.i.is_unconstrained() {
                Atom::False1(x.ty)
            } else {
                Atom::Other
            },
            Term::Even(x) => if x.i.is_unconstrained() {
                Atom::Even(x.ty)
            } else {
                Atom::Other
            },
            Term::Odd(x) => if x.i.is_unconstrained() {
                Atom::Odd(x.ty)
            } else {
                Atom::Other
            },
            Term::EqK(x) => if x.i.is_unconstrained() {
                Atom::EqK(x.ty, x.k)
            } else {
                Atom::Other
            },
            Term::GeK(x) => if x.i.is_unconstrained() {
                Atom::GeK(x.ty, x.k)
            } else {
                Atom::Other
            },
            Term::LtK(x) => if x.i.is_unconstrained() {
                Atom::LtK(x.ty, x.k)
            } else {
                Atom::Other
            },
            Term::If(x) => if x.i.is_unconstrained() {
                match (x.co.atom(), x.tr.atom(), x.fa.atom()) {
                    (Atom::LtK(ty, k), Atom::False1(t1), Atom::Even(t2)) => if t1 == ty && t2
                        == ty {
                        Atom::IfLtFalse1Even(ty, k)
                    } else {
                        Atom::Other
                    },
                    _ => Atom::Other,
                }
            } else {
                Atom::Other
            },
            Term::IfK(x) => if x.i.is_unconstrained() {
                match (x.co.atom(), x.tr.atom(), x.fa.atom()) {
                    (Atom::Even(t0), Atom::Even(t1), Atom::Odd(t2)) => if t0 == x.ty && t1
                        == x.ty && t2 == x.ty {
                        Atom::IfKEvenEvenOdd(x.ty, x.k)
                    } else {
                        Atom::Other
                    },
                    (Atom::Odd(t0), Atom::Even(t1), Atom::Odd(t2)) => if t0 == x.ty && t1
                        == x.ty && t2 == x.ty {
                        Atom::IfKOddEvenOdd(x.ty, x.k)
                    } else {
                        Atom::Other
                    },
                    _ => Atom::Other,
                }
            } else {
                Atom::Other
            },
            _ => Atom::Other,
        }
    }
}

} // verus!
