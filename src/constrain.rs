//! Attaching a constraint to a term, and reading it back.
use vstd::prelude::*;

use crate::ex_path::ExPath;
use crate::term::{
    unc, Add, AddK, And, Con, EqK, Even, Exc, False1, GeK, Id, If, IfK, LtK, Nand, Nexc, Nor, Not,
    Nrexc, Odd, Or, PathError, Rexc, Term, Xor,
};

verus! {

impl Term {
    /// The term with its constraint replaced by `c`; tag, literal and domain
    /// stay. `true_1` carries no constraint and stays as it is.
    pub open spec fn lift(self, c: Con) -> Term {
        match self {
            Term::True1 => Term::True1,
            Term::False1(x) => Term::False1(False1 { i: c, ..x }),
            Term::Id(x) => Term::Id(Id { i: c, ..x }),
            Term::Not(x) => Term::Not(Not { i: c }),
            Term::Or(x) => Term::Or(Or { i: c }),
            Term::And(x) => Term::And(And { i: c }),
            Term::Eq(x) => Term::Eq(crate::term::Eq { i: c, ..x }),
            Term::EqK(x) => Term::EqK(EqK { i: c, ..x }),
            Term::Xor(x) => Term::Xor(Xor { i: c }),
            Term::Nor(x) => Term::Nor(Nor { i: c }),
            Term::Nand(x) => Term::Nand(Nand { i: c }),
            Term::Exc(x) => Term::Exc(Exc { i: c }),
            Term::Nrexc(x) => Term::Nrexc(Nrexc { i: c }),
            Term::Rexc(x) => Term::Rexc(Rexc { i: c }),
            Term::Nexc(x) => Term::Nexc(Nexc { i: c }),
            Term::Even(x) => Term::Even(Even { i: c, ..x }),
            Term::Odd(x) => Term::Odd(Odd { i: c, ..x }),
            Term::Add(x) => Term::Add(Add { i: c, ..x }),
            Term::AddK(x) => Term::AddK(AddK { i: c, ..x }),
            Term::GeK(x) => Term::GeK(GeK { i: c, ..x }),
            Term::LtK(x) => Term::LtK(LtK { i: c, ..x }),
            Term::IfK(x) => Term::IfK(IfK { i: c, ..x }),
            Term::If(x) => Term::If(If { i: c, ..x }),
        }
    }

    /// The constraint attached to the term (`true_1` for `true_1` itself).
    pub open spec fn constraint(self) -> Con {
        match self {
            Term::True1 => unc(),
            Term::False1(x) => x.i,
            Term::Id(x) => x.i,
            Term::Not(x) => x.i,
            Term::Or(x) => x.i,
            Term::And(x) => x.i,
            Term::Eq(x) => x.i,
            Term::EqK(x) => x.i,
            Term::Xor(x) => x.i,
            Term::Nor(x) => x.i,
            Term::Nand(x) => x.i,
            Term::Exc(x) => x.i,
            Term::Nrexc(x) => x.i,
            Term::Rexc(x) => x.i,
            Term::Nexc(x) => x.i,
            Term::Even(x) => x.i,
            Term::Odd(x) => x.i,
            Term::Add(x) => x.i,
            Term::AddK(x) => x.i,
            Term::GeK(x) => x.i,
            Term::LtK(x) => x.i,
            Term::IfK(x) => x.i,
            Term::If(x) => x.i,
        }
    }
}

/// Attaching a constraint to the input of a function.
pub trait Constrain: Sized {
    /// The value with its constraint replaced by `c`.
    spec fn lifted(&self, c: Con) -> Self;

    /// Whether the rule table resolves the value lifted by `c`.
    spec fn lift_resolves(&self, c: Con) -> bool;

    /// Forced lifting: attaches `c` whether or not the rule table resolves
    /// the result.
    fn i_force(&self, c: Con) -> (r: Self)
        ensures
            r == self.lifted(c),
    ;

    /// Checked lifting: attaches `c` only where the rule table resolves the
    /// lifted value, and fails with `UnsupportedConstraint` otherwise.
    fn i(&self, c: Con) -> (r: Result<Self, PathError>)
        ensures
            self.lift_resolves(c) ==> r == Ok::<Self, PathError>(self.lifted(c)),
            !self.lift_resolves(c) ==> r == Err::<Self, PathError>(
                PathError::UnsupportedConstraint,
            ),
    ;
}

impl Constrain for Term {
    open spec fn lifted(&self, c: Con) -> Term {
        self.lift(c)
    }

    open spec fn lift_resolves(&self, c: Con) -> bool {
        self.lift(c).existential_path() is Some
    }

    fn i_force(&self, c: Con) -> (r: Term) {
        match self {
            Term::True1 => Term::True1,
            Term::False1(x) => Term::False1(False1 { ty: x.ty, i: c }),
            Term::Id(x) => Term::Id(Id { ty: x.ty, i: c }),
            Term::Not(_) => Term::Not(Not { i: c }),
            Term::Or(_) => Term::Or(Or { i: c }),
            Term::And(_) => Term::And(And { i: c }),
            Term::Eq(x) => Term::Eq(crate::term::Eq { ty: x.ty, i: c }),
            Term::EqK(x) => Term::EqK(EqK { ty: x.ty, k: x.k, i: c }),
            Term::Xor(_) => Term::Xor(Xor { i: c }),
            Term::Nor(_) => Term::Nor(Nor { i: c }),
            Term::Nand(_) => Term::Nand(Nand { i: c }),
            Term::Exc(_) => Term::Exc(Exc { i: c }),
            Term::Nrexc(_) => Term::Nrexc(Nrexc { i: c }),
            Term::Rexc(_) => Term::Rexc(Rexc { i: c }),
            Term::Nexc(_) => Term::Nexc(Nexc { i: c }),
            Term::Even(x) => Term::Even(Even { ty: x.ty, i: c }),
            Term::Odd(x) => Term::Odd(Odd { ty: x.ty, i: c }),
            Term::Add(x) => Term::Add(Add { ty: x.ty, i: c }),
            Term::AddK(x) => Term::AddK(AddK { ty: x.ty, k: x.k, i: c }),
            Term::GeK(x) => Term::GeK(GeK { ty: x.ty, k: x.k, i: c }),
            Term::LtK(x) => Term::LtK(LtK { ty: x.ty, k: x.k, i: c }),
            Term::IfK(x) => Term::IfK(IfK {
                ty: x.ty,
                k: x.k,
                co: Box::new(x.co.copy()),
                tr: Box::new(x.tr.copy()),
                fa: Box::new(x.fa.copy()),
                i: c,
            }),
            Term::If(x) => Term::If(If {
                co: Box::new(x.co.copy()),
                tr: Box::new(x.tr.copy()),
                fa: Box::new(x.fa.copy()),
                i: c,
            }),
        }
    }

    fn i(&self, c: Con) -> (r: Result<Term, PathError>) {
        let t = self.i_force(c);
        match t.ex_path() {
            Ok(_) => Ok(t),
            Err(e) => Err(e),
        }
    }
}

/// Reading back the constraint attached to a function.
pub trait TriPath {
    /// The attached constraint.
    spec fn trivial_path(&self) -> Con;

    /// The trivial path: the constraint attached to the input, read back
    /// without resolving anything.
    fn tri_path(&self) -> (r: Con)
        ensures
            r == self.trivial_path(),
    ;
}

impl TriPath for Term {
    open spec fn trivial_path(&self) -> Con {
        self.constraint()
    }

    fn tri_path(&self) -> (r: Con) {
        match self {
            Term::True1 => Con::unc(),
            Term::False1(x) => x.i.copy(),
            Term::Id(x) => x.i.copy(),
            Term::Not(x) => x.i.copy(),
            Term::Or(x) => x.i.copy(),
            Term::And(x) => x.i.copy(),
            Term::Eq(x) => x.i.copy(),
            Term::EqK(x) => x.i.copy(),
            Term::Xor(x) => x.i.copy(),
            Term::Nor(x) => x.i.copy(),
            Term::Nand(x) => x.i.copy(),
            Term::Exc(x) => x.i.copy(),
            Term::Nrexc(x) => x.i.copy(),
            Term::Rexc(x) => x.i.copy(),
            Term::Nexc(x) => x.i.copy(),
            Term::Even(x) => x.i.copy(),
            Term::Odd(x) => x.i.copy(),
            Term::Add(x) => x.i.copy(),
            Term::AddK(x) => x.i.copy(),
            Term::GeK(x) => x.i.copy(),
            Term::LtK(x) => x.i.copy(),
            Term::IfK(x) => x.i.copy(),
            Term::If(x) => x.i.copy(),
        }
    }
}

} // verus!
