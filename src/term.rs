//! The closed algebra of function symbols and their constraints.
//!
//! Terms are plain values: lifting, resolution and composition build new
//! terms and never change their arguments. A literal `k` is a `u64` read in
//! the term's domain `ty`; where the rule table computes a literal (a sum),
//! a result that leaves the domain has no entry.
use vstd::prelude::*;

verus! {

/// The domain a function symbol ranges over: Booleans, or unsigned integers
/// of a fixed bit width.
#[derive(Clone, Copy, Debug, PartialEq, Eq, Structural)]
pub enum Ty {
    Bool,
    U8,
    U16,
    U32,
    U64,
}

impl Ty {
    /// Whether this is one of the unsigned integer widths.
    pub open spec fn is_nat(self) -> bool {
        self !is Bool
    }

    /// The largest value of the domain.
    pub open spec fn max(self) -> nat {
        match self {
            Ty::Bool => 1,
            Ty::U8 => 0xff,
            Ty::U16 => 0xffff,
            Ty::U32 => 0xffff_ffff,
            Ty::U64 => 0xffff_ffff_ffff_ffff,
        }
    }

    /// Whether the literal `k` lies in the domain.
    pub open spec fn fits(self, k: u64) -> bool {
        k <= self.max()
    }

    /// Whether the literal `k` lies in the domain.
    pub fn fits_value(&self, k: u64) -> (r: bool)
        ensures
            r == self.fits(k),
    {
        k <= self.max_value()
    }

    /// The largest value of the domain.
    pub fn max_value(&self) -> (r: u64)
        ensures
            r == self.max(),
    {
        match self {
            Ty::Bool => 1,
            Ty::U8 => 0xff,
            Ty::U16 => 0xffff,
            Ty::U32 => 0xffff_ffff,
            Ty::U64 => 0xffff_ffff_ffff_ffff,
        }
    }

    /// Whether this is one of the unsigned integer widths.
    pub fn is_nat_ty(&self) -> (r: bool)
        ensures
            r == self.is_nat(),
    {
        !matches!(self, Ty::Bool)
    }
}

/// What is assumed of a function's input: a single predicate (the
/// unconstrained marker `true_1` among them), or one predicate for each of
/// the two arguments of a binary function.
#[derive(Debug, PartialEq, Eq)]
pub enum Con {
    One(Box<Term>),
    Two(Box<Term>, Box<Term>),
}

/// `false_1`: the predicate that holds of no value.
#[derive(Debug, PartialEq, Eq)]
pub struct False1 {
    pub ty: Ty,
    pub i: Con,
}

/// `id`: the identity; on Booleans, the predicate "is true".
#[derive(Debug, PartialEq, Eq)]
pub struct Id {
    pub ty: Ty,
    pub i: Con,
}

/// `not`: Boolean negation; as a predicate, "is false".
#[derive(Debug, PartialEq, Eq)]
pub struct Not {
    pub i: Con,
}

/// `or`: Boolean disjunction.
#[derive(Debug, PartialEq, Eq)]
pub struct Or {
    pub i: Con,
}

/// `and`: Boolean conjunction.
#[derive(Debug, PartialEq, Eq)]
pub struct And {
    pub i: Con,
}

/// `eq`: equality of two values.
#[derive(Debug, PartialEq, Eq)]
pub struct Eq {
    pub ty: Ty,
    pub i: Con,
}

/// `(= k)`: equality with the literal `k`.
#[derive(Debug, PartialEq, Eq)]
pub struct EqK {
    pub ty: Ty,
    pub k: u64,
    pub i: Con,
}

/// `xor`: Boolean exclusive or.
#[derive(Debug, PartialEq, Eq)]
pub struct Xor {
    pub i: Con,
}

/// `nor`: negated disjunction.
#[derive(Debug, PartialEq, Eq)]
pub struct Nor {
    pub i: Con,
}

/// `nand`: negated conjunction.
#[derive(Debug, PartialEq, Eq)]
pub struct Nand {
    pub i: Con,
}

/// `exc`: exclusion, `a && !b`.
#[derive(Debug, PartialEq, Eq)]
pub struct Exc {
    pub i: Con,
}

/// `nrexc`: negated reverse exclusion, `a || !b`.
#[derive(Debug, PartialEq, Eq)]
pub struct Nrexc {
    pub i: Con,
}

/// `rexc`: reverse exclusion, `!a && b`.
#[derive(Debug, PartialEq, Eq)]
pub struct Rexc {
    pub i: Con,
}

/// `nexc`: negated exclusion, `!a || b`.
#[derive(Debug, PartialEq, Eq)]
pub struct Nexc {
    pub i: Con,
}

/// `even`: the value is even.
#[derive(Debug, PartialEq, Eq)]
pub struct Even {
    pub ty: Ty,
    pub i: Con,
}

/// `odd`: the value is odd.
#[derive(Debug, PartialEq, Eq)]
pub struct Odd {
    pub ty: Ty,
    pub i: Con,
}

/// `add`: the sum of two values.
#[derive(Debug, PartialEq, Eq)]
pub struct Add {
    pub ty: Ty,
    pub i: Con,
}

/// `add(k)`: adds the literal `k`.
#[derive(Debug, PartialEq, Eq)]
pub struct AddK {
    pub ty: Ty,
    pub k: u64,
    pub i: Con,
}

/// `(>= k)`: at least the literal `k`.
#[derive(Debug, PartialEq, Eq)]
pub struct GeK {
    pub ty: Ty,
    pub k: u64,
    pub i: Con,
}

/// `(< k)`: less than the literal `k`.
#[derive(Debug, PartialEq, Eq)]
pub struct LtK {
    pub ty: Ty,
    pub k: u64,
    pub i: Con,
}

/// `\(x) = if co(k) {tr(x)} else {fa(x)}`: a conditional whose condition is
/// decided by the literal `k`, fixed when the term is built.
#[derive(Debug, PartialEq, Eq)]
pub struct IfK {
    pub ty: Ty,
    pub k: u64,
    pub co: Box<Term>,
    pub tr: Box<Term>,
    pub fa: Box<Term>,
    pub i: Con,
}

/// `\(x) = if co(x) {tr(x)} else {fa(x)}`: a conditional whose condition is
/// evaluated on the input itself.
#[derive(Debug, PartialEq, Eq)]
pub struct If {
    pub co: Box<Term>,
    pub tr: Box<Term>,
    pub fa: Box<Term>,
    pub i: Con,
}

/// A function symbol of the closed algebra, with the constraint on its input.
///
/// `True1` is `true_1`, the predicate that holds of every value; as a
/// constraint it is the unconstrained marker, and it carries no constraint
/// of its own.
#[derive(Debug, PartialEq, Eq)]
pub enum Term {
    True1,
    False1(False1),
    Id(Id),
    Not(Not),
    Or(Or),
    And(And),
    Eq(Eq),
    EqK(EqK),
    Xor(Xor),
    Nor(Nor),
    Nand(Nand),
    Exc(Exc),
    Nrexc(Nrexc),
    Rexc(Rexc),
    Nexc(Nexc),
    Even(Even),
    Odd(Odd),
    Add(Add),
    AddK(AddK),
    GeK(GeK),
    LtK(LtK),
    IfK(IfK),
    If(If),
}

/// Why a lifting, a resolution or a composition failed.
#[derive(Clone, Copy, Debug, PartialEq, Eq, Structural)]
pub enum PathError {
    /// The rule table has no entry for the term with its constraint.
    UnsupportedConstraint,
    /// Two derivations of one composition disagree: the registered rules
    /// are inconsistent.
    RuntimeEquivalenceMismatch,
}

/// The result of a resolution that the rule table may leave open.
pub open spec fn resolved(o: Option<Con>) -> Result<Con, PathError> {
    match o {
        Some(c) => Ok(c),
        None => Err(PathError::UnsupportedConstraint),
    }
}

/// The unconstrained marker as a constraint.
pub open spec fn unc() -> Con {
    Con::One(Box::new(Term::True1))
}

/// A single predicate as a constraint.
pub open spec fn one(t: Term) -> Con {
    Con::One(Box::new(t))
}

/// One predicate for each argument.
pub open spec fn two(a: Term, b: Term) -> Con {
    Con::Two(Box::new(a), Box::new(b))
}

/// Unconstrained `not`.
pub open spec fn t_not() -> Term {
    Term::Not(Not { i: unc() })
}

/// Unconstrained `or`.
pub open spec fn t_or() -> Term {
    Term::Or(Or { i: unc() })
}

/// Unconstrained `and`.
pub open spec fn t_and() -> Term {
    Term::And(And { i: unc() })
}

/// Unconstrained `xor`.
pub open spec fn t_xor() -> Term {
    Term::Xor(Xor { i: unc() })
}

/// Unconstrained `nor`.
pub open spec fn t_nor() -> Term {
    Term::Nor(Nor { i: unc() })
}

/// Unconstrained `nand`.
pub open spec fn t_nand() -> Term {
    Term::Nand(Nand { i: unc() })
}

/// Unconstrained `exc`.
pub open spec fn t_exc() -> Term {
    Term::Exc(Exc { i: unc() })
}

/// Unconstrained `nrexc`.
pub open spec fn t_nrexc() -> Term {
    Term::Nrexc(Nrexc { i: unc() })
}

/// Unconstrained `rexc`.
pub open spec fn t_rexc() -> Term {
    Term::Rexc(Rexc { i: unc() })
}

/// Unconstrained `nexc`.
pub open spec fn t_nexc() -> Term {
    Term::Nexc(Nexc { i: unc() })
}

/// Unconstrained `false_1` over `ty`.
pub open spec fn t_false1(ty: Ty) -> Term {
    Term::False1(False1 { ty, i: unc() })
}

/// Unconstrained `id` over `ty`.
pub open spec fn t_id(ty: Ty) -> Term {
    Term::Id(Id { ty, i: unc() })
}

/// Unconstrained `eq` over `ty`.
pub open spec fn t_eq(ty: Ty) -> Term {
    Term::Eq(crate::term::Eq { ty, i: unc() })
}

/// Unconstrained `even` over `ty`.
pub open spec fn t_even(ty: Ty) -> Term {
    Term::Even(Even { ty, i: unc() })
}

/// Unconstrained `odd` over `ty`.
pub open spec fn t_odd(ty: Ty) -> Term {
    Term::Odd(Odd { ty, i: unc() })
}

/// Unconstrained `add` over `ty`.
pub open spec fn t_add(ty: Ty) -> Term {
    Term::Add(Add { ty, i: unc() })
}

/// Unconstrained `(= k)` over `ty`.
pub open spec fn t_eq_k(ty: Ty, k: u64) -> Term {
    Term::EqK(EqK { ty, k, i: unc() })
}

/// Unconstrained `add(k)` over `ty`.
pub open spec fn t_add_k(ty: Ty, k: u64) -> Term {
    Term::AddK(AddK { ty, k, i: unc() })
}

/// Unconstrained `(>= k)` over `ty`.
pub open spec fn t_ge_k(ty: Ty, k: u64) -> Term {
    Term::GeK(GeK { ty, k, i: unc() })
}

/// Unconstrained `(< k)` over `ty`.
pub open spec fn t_lt_k(ty: Ty, k: u64) -> Term {
    Term::LtK(LtK { ty, k, i: unc() })
}

/// Unconstrained `if co(k) {tr} else {fa}`.
pub open spec fn t_if_k(ty: Ty, k: u64, co: Term, tr: Term, fa: Term) -> Term {
    Term::IfK(IfK { ty, k, co: Box::new(co), tr: Box::new(tr), fa: Box::new(fa), i: unc() })
}

/// Unconstrained `if co(x) {tr(x)} else {fa(x)}`.
pub open spec fn t_if(co: Term, tr: Term, fa: Term) -> Term {
    Term::If(If { co: Box::new(co), tr: Box::new(tr), fa: Box::new(fa), i: unc() })
}

impl Con {
    /// The unconstrained marker.
    pub fn unc() -> (r: Con)
        ensures
            r == unc(),
    {
        Con::One(Box::new(Term::True1))
    }

    /// A single predicate.
    pub fn one(t: Term) -> (r: Con)
        ensures
            r == one(t),
    {
        Con::One(Box::new(t))
    }

    /// One predicate for each argument of a binary function.
    pub fn two(a: Term, b: Term) -> (r: Con)
        ensures
            r == two(a, b),
    {
        Con::Two(Box::new(a), Box::new(b))
    }

    /// Whether this is the unconstrained marker.
    pub open spec fn is_unc(self) -> bool {
        self == unc()
    }

    /// A measure of the constraint's size, used for termination.
    pub open spec fn size(self) -> nat
        decreases self,
    {
        match self {
            Con::One(t) => 1 + t.size(),
            Con::Two(a, b) => 1 + a.size() + b.size(),
        }
    }

    /// Structural equality.
    pub fn same_as(&self, other: &Con) -> (r: bool)
        ensures
            r == (*self == *other),
        decreases self,
    {
        match (self, other) {
            (Con::One(a), Con::One(b)) => a.same_as(b),
            (Con::Two(a1, b1), Con::Two(a2, b2)) => a1.same_as(a2) && b1.same_as(b2),
            _ => false,
        }
    }

    /// Validity: every literal lies in the domain of its term.
    pub open spec fn valid(self) -> bool
        decreases self,
    {
        match self {
            Con::One(t) => t.valid(),
            Con::Two(a, b) => a.valid() && b.valid(),
        }
    }


    /// Whether every literal lies in the domain of its term.
    pub fn is_valid(&self) -> (r: bool)
        ensures
            r == self.valid(),
        decreases self,
    {
        match self {
            Con::One(t) => t.is_valid(),
            Con::Two(a, b) => a.is_valid() && b.is_valid(),
        }
    }

    /// A copy of the constraint.
    pub fn copy(&self) -> (r: Con)
        ensures
            r == *self,
        decreases self,
    {
        match self {
            Con::One(t) => Con::One(Box::new(t.copy())),
            Con::Two(a, b) => Con::Two(Box::new(a.copy()), Box::new(b.copy())),
        }
    }
}

impl Term {
    /// Unconstrained `not`.
    pub fn new_not() -> (r: Term)
        ensures
            r == t_not(),
    {
        Term::Not(Not { i: Con::unc() })
    }

    /// Unconstrained `or`.
    pub fn new_or() -> (r: Term)
        ensures
            r == t_or(),
    {
        Term::Or(Or { i: Con::unc() })
    }

    /// Unconstrained `and`.
    pub fn new_and() -> (r: Term)
        ensures
            r == t_and(),
    {
        Term::And(And { i: Con::unc() })
    }

    /// Unconstrained `xor`.
    pub fn new_xor() -> (r: Term)
        ensures
            r == t_xor(),
    {
        Term::Xor(Xor { i: Con::unc() })
    }

    /// Unconstrained `nor`.
    pub fn new_nor() -> (r: Term)
        ensures
            r == t_nor(),
    {
        Term::Nor(Nor { i: Con::unc() })
    }

    /// Unconstrained `nand`.
    pub fn new_nand() -> (r: Term)
        ensures
            r == t_nand(),
    {
        Term::Nand(Nand { i: Con::unc() })
    }

    /// Unconstrained `exc`.
    pub fn new_exc() -> (r: Term)
        ensures
            r == t_exc(),
    {
        Term::Exc(Exc { i: Con::unc() })
    }

    /// Unconstrained `nrexc`.
    pub fn new_nrexc() -> (r: Term)
        ensures
            r == t_nrexc(),
    {
        Term::Nrexc(Nrexc { i: Con::unc() })
    }

    /// Unconstrained `rexc`.
    pub fn new_rexc() -> (r: Term)
        ensures
            r == t_rexc(),
    {
        Term::Rexc(Rexc { i: Con::unc() })
    }

    /// Unconstrained `nexc`.
    pub fn new_nexc() -> (r: Term)
        ensures
            r == t_nexc(),
    {
        Term::Nexc(Nexc { i: Con::unc() })
    }

    /// Unconstrained `false_1` over `ty`.
    pub fn new_false1(ty: Ty) -> (r: Term)
        ensures
            r == t_false1(ty),
    {
        Term::False1(False1 { ty, i: Con::unc() })
    }

    /// Unconstrained `id` over `ty`.
    pub fn new_id(ty: Ty) -> (r: Term)
        ensures
            r == t_id(ty),
    {
        Term::Id(Id { ty, i: Con::unc() })
    }

    /// Unconstrained `eq` over `ty`.
    pub fn new_eq(ty: Ty) -> (r: Term)
        ensures
            r == t_eq(ty),
    {
        Term::Eq(crate::term::Eq { ty, i: Con::unc() })
    }

    /// Unconstrained `even` over `ty`.
    pub fn new_even(ty: Ty) -> (r: Term)
        ensures
            r == t_even(ty),
    {
        Term::Even(Even { ty, i: Con::unc() })
    }

    /// Unconstrained `odd` over `ty`.
    pub fn new_odd(ty: Ty) -> (r: Term)
        ensures
            r == t_odd(ty),
    {
        Term::Odd(Odd { ty, i: Con::unc() })
    }

    /// Unconstrained `add` over `ty`.
    pub fn new_add(ty: Ty) -> (r: Term)
        ensures
            r == t_add(ty),
    {
        Term::Add(Add { ty, i: Con::unc() })
    }

    /// Unconstrained `(= k)` over `ty`.
    pub fn new_eq_k(ty: Ty, k: u64) -> (r: Term)
        ensures
            r == t_eq_k(ty, k),
    {
        Term::EqK(EqK { ty, k, i: Con::unc() })
    }

    /// Unconstrained `add(k)` over `ty`.
    pub fn new_add_k(ty: Ty, k: u64) -> (r: Term)
        ensures
            r == t_add_k(ty, k),
    {
        Term::AddK(AddK { ty, k, i: Con::unc() })
    }

    /// Unconstrained `(>= k)` over `ty`.
    pub fn new_ge_k(ty: Ty, k: u64) -> (r: Term)
        ensures
            r == t_ge_k(ty, k),
    {
        Term::GeK(GeK { ty, k, i: Con::unc() })
    }

    /// Unconstrained `(< k)` over `ty`.
    pub fn new_lt_k(ty: Ty, k: u64) -> (r: Term)
        ensures
            r == t_lt_k(ty, k),
    {
        Term::LtK(LtK { ty, k, i: Con::unc() })
    }

    /// Unconstrained `if co(k) {tr} else {fa}`.
    pub fn new_if_k(ty: Ty, k: u64, co: Term, tr: Term, fa: Term) -> (r: Term)
        ensures
            r == t_if_k(ty, k, co, tr, fa),
    {
        Term::IfK(
            IfK { ty, k, co: Box::new(co), tr: Box::new(tr), fa: Box::new(fa), i: Con::unc() },
        )
    }

    /// Unconstrained `if co(x) {tr(x)} else {fa(x)}`.
    pub fn new_if(co: Term, tr: Term, fa: Term) -> (r: Term)
        ensures
            r == t_if(co, tr, fa),
    {
        Term::If(If { co: Box::new(co), tr: Box::new(tr), fa: Box::new(fa), i: Con::unc() })
    }

    /// A measure of the term's size, used for termination.
    pub open spec fn size(self) -> nat
        decreases self,
    {
        match self {
            Term::True1 => 1,
            Term::False1(x) => 1 + x.i.size(),
            Term::Id(x) => 1 + x.i.size(),
            Term::Not(x) => 1 + x.i.size(),
            Term::Or(x) => 1 + x.i.size(),
            Term::And(x) => 1 + x.i.size(),
            Term::Eq(x) => 1 + x.i.size(),
            Term::EqK(x) => 1 + x.i.size(),
            Term::Xor(x) => 1 + x.i.size(),
            Term::Nor(x) => 1 + x.i.size(),
            Term::Nand(x) => 1 + x.i.size(),
            Term::Exc(x) => 1 + x.i.size(),
            Term::Nrexc(x) => 1 + x.i.size(),
            Term::Rexc(x) => 1 + x.i.size(),
            Term::Nexc(x) => 1 + x.i.size(),
            Term::Even(x) => 1 + x.i.size(),
            Term::Odd(x) => 1 + x.i.size(),
            Term::Add(x) => 1 + x.i.size(),
            Term::AddK(x) => 1 + x.i.size(),
            Term::GeK(x) => 1 + x.i.size(),
            Term::LtK(x) => 1 + x.i.size(),
            Term::IfK(x) => 1 + x.co.size() + x.tr.size() + x.fa.size() + x.i.size(),
            Term::If(x) => 1 + x.co.size() + x.tr.size() + x.fa.size() + x.i.size(),
        }
    }

    /// Structural equality: same tag, literal, domain and constraint.
    pub fn same_as(&self, other: &Term) -> (r: bool)
        ensures
            r == (*self == *other),
        decreases self,
    {
        match (self, other) {
            (Term::True1, Term::True1) => true,
            (Term::False1(x), Term::False1(y)) => x.ty == y.ty && x.i.same_as(&y.i),
            (Term::Id(x), Term::Id(y)) => x.ty == y.ty && x.i.same_as(&y.i),
            (Term::Not(x), Term::Not(y)) => x.i.same_as(&y.i),
            (Term::Or(x), Term::Or(y)) => x.i.same_as(&y.i),
            (Term::And(x), Term::And(y)) => x.i.same_as(&y.i),
            (Term::Eq(x), Term::Eq(y)) => x.ty == y.ty && x.i.same_as(&y.i),
            (Term::EqK(x), Term::EqK(y)) => x.ty == y.ty && x.k == y.k && x.i.same_as(&y.i),
            (Term::Xor(x), Term::Xor(y)) => x.i.same_as(&y.i),
            (Term::Nor(x), Term::Nor(y)) => x.i.same_as(&y.i),
            (Term::Nand(x), Term::Nand(y)) => x.i.same_as(&y.i),
            (Term::Exc(x), Term::Exc(y)) => x.i.same_as(&y.i),
            (Term::Nrexc(x), Term::Nrexc(y)) => x.i.same_as(&y.i),
            (Term::Rexc(x), Term::Rexc(y)) => x.i.same_as(&y.i),
            (Term::Nexc(x), Term::Nexc(y)) => x.i.same_as(&y.i),
            (Term::Even(x), Term::Even(y)) => x.ty == y.ty && x.i.same_as(&y.i),
            (Term::Odd(x), Term::Odd(y)) => x.ty == y.ty && x.i.same_as(&y.i),
            (Term::Add(x), Term::Add(y)) => x.ty == y.ty && x.i.same_as(&y.i),
            (Term::AddK(x), Term::AddK(y)) => x.ty == y.ty && x.k == y.k && x.i.same_as(&y.i),
            (Term::GeK(x), Term::GeK(y)) => x.ty == y.ty && x.k == y.k && x.i.same_as(&y.i),
            (Term::LtK(x), Term::LtK(y)) => x.ty == y.ty && x.k == y.k && x.i.same_as(&y.i),
            (Term::IfK(x), Term::IfK(y)) => {
                x.ty == y.ty
                    && x.k == y.k
                    && x.co.same_as(&y.co)
                    && x.tr.same_as(&y.tr)
                    && x.fa.same_as(&y.fa)
                    && x.i.same_as(&y.i)
            },
            (Term::If(x), Term::If(y)) => {
                x.co.same_as(&y.co)
                    && x.tr.same_as(&y.tr)
                    && x.fa.same_as(&y.fa)
                    && x.i.same_as(&y.i)
            },
            _ => false,
        }
    }

    /// Validity: every literal lies in the domain of its term.
    pub open spec fn valid(self) -> bool
        decreases self,
    {
        match self {
            Term::True1 => true,
            Term::False1(x) => x.i.valid(),
            Term::Id(x) => x.i.valid(),
            Term::Not(x) => x.i.valid(),
            Term::Or(x) => x.i.valid(),
            Term::And(x) => x.i.valid(),
            Term::Eq(x) => x.i.valid(),
            Term::EqK(x) => x.ty.fits(x.k) && x.i.valid(),
            Term::Xor(x) => x.i.valid(),
            Term::Nor(x) => x.i.valid(),
            Term::Nand(x) => x.i.valid(),
            Term::Exc(x) => x.i.valid(),
            Term::Nrexc(x) => x.i.valid(),
            Term::Rexc(x) => x.i.valid(),
            Term::Nexc(x) => x.i.valid(),
            Term::Even(x) => x.i.valid(),
            Term::Odd(x) => x.i.valid(),
            Term::Add(x) => x.i.valid(),
            Term::AddK(x) => x.ty.fits(x.k) && x.i.valid(),
            Term::GeK(x) => x.ty.fits(x.k) && x.i.valid(),
            Term::LtK(x) => x.ty.fits(x.k) && x.i.valid(),
            Term::IfK(x) => x.ty.fits(x.k) && x.co.valid() && x.tr.valid() && x.fa.valid()
                && x.i.valid(),
            Term::If(x) => x.co.valid() && x.tr.valid() && x.fa.valid() && x.i.valid(),
        }
    }


    /// Whether every literal lies in the domain of its term.
    pub fn is_valid(&self) -> (r: bool)
        ensures
            r == self.valid(),
        decreases self,
    {
        match self {
            Term::True1 => true,
            Term::False1(x) => x.i.is_valid(),
            Term::Id(x) => x.i.is_valid(),
            Term::Not(x) => x.i.is_valid(),
            Term::Or(x) => x.i.is_valid(),
            Term::And(x) => x.i.is_valid(),
            Term::Eq(x) => x.i.is_valid(),
            Term::EqK(x) => x.ty.fits_value(x.k) && x.i.is_valid(),
            Term::Xor(x) => x.i.is_valid(),
            Term::Nor(x) => x.i.is_valid(),
            Term::Nand(x) => x.i.is_valid(),
            Term::Exc(x) => x.i.is_valid(),
            Term::Nrexc(x) => x.i.is_valid(),
            Term::Rexc(x) => x.i.is_valid(),
            Term::Nexc(x) => x.i.is_valid(),
            Term::Even(x) => x.i.is_valid(),
            Term::Odd(x) => x.i.is_valid(),
            Term::Add(x) => x.i.is_valid(),
            Term::AddK(x) => x.ty.fits_value(x.k) && x.i.is_valid(),
            Term::GeK(x) => x.ty.fits_value(x.k) && x.i.is_valid(),
            Term::LtK(x) => x.ty.fits_value(x.k) && x.i.is_valid(),
            Term::IfK(x) => {
                x.ty.fits_value(x.k) && x.co.is_valid() && x.tr.is_valid() && x.fa.is_valid()
                    && x.i.is_valid()
            },
            Term::If(x) => x.co.is_valid() && x.tr.is_valid() && x.fa.is_valid() && x.i.is_valid(),
        }
    }

    /// A copy of the term.
    pub fn copy(&self) -> (r: Term)
        ensures
            r == *self,
        decreases self,
    {
        match self {
            Term::True1 => Term::True1,
            Term::False1(x) => Term::False1(False1 { ty: x.ty, i: x.i.copy() }),
            Term::Id(x) => Term::Id(Id { ty: x.ty, i: x.i.copy() }),
            Term::Not(x) => Term::Not(Not { i: x.i.copy() }),
            Term::Or(x) => Term::Or(Or { i: x.i.copy() }),
            Term::And(x) => Term::And(And { i: x.i.copy() }),
            Term::Eq(x) => Term::Eq(Eq { ty: x.ty, i: x.i.copy() }),
            Term::EqK(x) => Term::EqK(EqK { ty: x.ty, k: x.k, i: x.i.copy() }),
            Term::Xor(x) => Term::Xor(Xor { i: x.i.copy() }),
            Term::Nor(x) => Term::Nor(Nor { i: x.i.copy() }),
            Term::Nand(x) => Term::Nand(Nand { i: x.i.copy() }),
            Term::Exc(x) => Term::Exc(Exc { i: x.i.copy() }),
            Term::Nrexc(x) => Term::Nrexc(Nrexc { i: x.i.copy() }),
            Term::Rexc(x) => Term::Rexc(Rexc { i: x.i.copy() }),
            Term::Nexc(x) => Term::Nexc(Nexc { i: x.i.copy() }),
            Term::Even(x) => Term::Even(Even { ty: x.ty, i: x.i.copy() }),
            Term::Odd(x) => Term::Odd(Odd { ty: x.ty, i: x.i.copy() }),
            Term::Add(x) => Term::Add(Add { ty: x.ty, i: x.i.copy() }),
            Term::AddK(x) => Term::AddK(AddK { ty: x.ty, k: x.k, i: x.i.copy() }),
            Term::GeK(x) => Term::GeK(GeK { ty: x.ty, k: x.k, i: x.i.copy() }),
            Term::LtK(x) => Term::LtK(LtK { ty: x.ty, k: x.k, i: x.i.copy() }),
            Term::IfK(x) => Term::IfK(IfK {
                ty: x.ty,
                k: x.k,
                co: Box::new(x.co.copy()),
                tr: Box::new(x.tr.copy()),
                fa: Box::new(x.fa.copy()),
                i: x.i.copy(),
            }),
            Term::If(x) => Term::If(If {
                co: Box::new(x.co.copy()),
                tr: Box::new(x.tr.copy()),
                fa: Box::new(x.fa.copy()),
                i: x.i.copy(),
            }),
        }
    }
}

} // verus!
