//! Composition of terms through the path relation `f[g] <=> h`.
use vstd::prelude::*;

use crate::constrain::{Constrain, TriPath};
use crate::ex_path::ExPath;
use crate::shape::Atom;
use crate::term::{
    t_and, t_eq, t_even, t_nand, t_nexc, t_nor, t_not, t_nrexc, t_odd, t_or, t_rexc, t_xor, t_exc,
    Con, PathError, Term, Ty,
};

verus! {

/// The registered path rules: for `f` and `g`, the unconstrained `h` with
/// `f[g] <=> h`, meaning `g(f(a, b)) == h(g(a), g(b))`. Negation turns each
/// Boolean operator into its dual; parity turns addition into `eq` (for
/// `even`) or `xor` (for `odd`).
pub open spec fn path_rule(f: Term, g: Term) -> Option<Term> {
    if g == t_not() {
        match f {
            Term::Or(_) => Some(t_and()),
            Term::And(_) => Some(t_or()),
            Term::Eq(x) => if x.ty == Ty::Bool {
                Some(t_xor())
            } else {
                None
            },
            Term::Xor(_) => Some(t_eq(Ty::Bool)),
            Term::Nor(_) => Some(t_nand()),
            Term::Nand(_) => Some(t_nor()),
            Term::Exc(_) => Some(t_nrexc()),
            Term::Nrexc(_) => Some(t_exc()),
            Term::Rexc(_) => Some(t_nexc()),
            Term::Nexc(_) => Some(t_rexc()),
            _ => None,
        }
    } else {
        match f {
            Term::Add(x) => if x.ty.is_nat() && g == t_even(x.ty) {
                Some(t_eq(Ty::Bool))
            } else if x.ty.is_nat() && g == t_odd(x.ty) {
                Some(t_xor())
            } else {
                None
            },
            _ => None,
        }
    }
}

/// `f[g]` under the rule `f[g] <=> h`, without a check: `h` constrained by
/// the existential path of `g` under the trivial path of `f`.
pub open spec fn compose_forced(f: Term, g: Term, h: Term) -> Result<Term, PathError> {
    match g.lift(f.constraint()).existential_path() {
        Some(c) => Ok(h.lift(c)),
        None => Err(PathError::UnsupportedConstraint),
    }
}

/// `f[g]` under the rule `f[g] <=> h`, checked: the composed term `fg` is
/// kept only where the existential path of `fg` (the candidate) equals the
/// existential path of `g` under the existential path of `f` (the
/// reference). Every resolution on the way must be registered.
pub open spec fn compose_checked(f: Term, g: Term, h: Term) -> Result<Term, PathError> {
    match (compose_forced(f, g, h), f.existential_path()) {
        (Ok(fg), Some(e)) => match (fg.existential_path(), g.lift(e).existential_path()) {
            (Some(a), Some(b)) => if a == b {
                Ok(fg)
            } else {
                Err(PathError::RuntimeEquivalenceMismatch)
            },
            _ => Err(PathError::UnsupportedConstraint),
        },
        _ => Err(PathError::UnsupportedConstraint),
    }
}

/// `f[g]` under the registered rule for `f` and `g`, without a check.
pub open spec fn path_forced(f: Term, g: Term) -> Result<Term, PathError> {
    match path_rule(f, g) {
        Some(h) => compose_forced(f, g, h),
        None => Err(PathError::UnsupportedConstraint),
    }
}

/// `f[g]` under the registered rule for `f` and `g`, checked.
pub open spec fn path_checked(f: Term, g: Term) -> Result<Term, PathError> {
    match path_rule(f, g) {
        Some(h) => compose_checked(f, g, h),
        None => Err(PathError::UnsupportedConstraint),
    }
}

impl Term {
    /// The registered `h` with `self[g] <=> h`, unconstrained.
    pub fn path_rule(&self, g: &Term) -> (r: Option<Term>)
        ensures
            r == path_rule(*self, *g),
    {
        let ga = g.atom();
        if matches!(ga, Atom::Not) {
            match self {
                Term::Or(_) => Some(Term::new_and()),
                Term::And(_) => Some(Term::new_or()),
                Term::Eq(x) => if matches!(x.ty, Ty::Bool) {
                    Some(Term::new_xor())
                } else {
                    None
                },
                Term::Xor(_) => Some(Term::new_eq(Ty::Bool)),
                Term::Nor(_) => Some(Term::new_nand()),
                Term::Nand(_) => Some(Term::new_nor()),
                Term::Exc(_) => Some(Term::new_nrexc()),
                Term::Nrexc(_) => Some(Term::new_exc()),
                Term::Rexc(_) => Some(Term::new_nexc()),
                Term::Nexc(_) => Some(Term::new_rexc()),
                _ => None,
            }
        } else {
            match self {
                Term::Add(x) => if x.ty.is_nat_ty() && ga == Atom::Even(x.ty) {
                    Some(Term::new_eq(Ty::Bool))
                } else if x.ty.is_nat_ty() && ga == Atom::Odd(x.ty) {
                    Some(Term::new_xor())
                } else {
                    None
                },
                _ => None,
            }
        }
    }

    /// Composes `self` with `g` under the rule `self[g] <=> h`, without a
    /// check.
    pub fn path_force_by(&self, g: &Term, h: &Term) -> (r: Result<Term, PathError>)
        ensures
            r == compose_forced(*self, *g, *h),
    {
        match g.i_force(self.tri_path()).ex_path() {
            Ok(c) => Ok(h.i_force(c)),
            Err(e) => Err(e),
        }
    }

    /// Composes `self` with `g` under the rule `self[g] <=> h`, and checks
    /// the result against a second derivation: `RuntimeEquivalenceMismatch`
    /// where the two disagree, `UnsupportedConstraint` where a resolution on
    /// the way has no entry.
    pub fn path_by(&self, g: &Term, h: &Term) -> (r: Result<Term, PathError>)
        ensures
            r == compose_checked(*self, *g, *h),
    {
        let fg = match self.path_force_by(g, h) {
            Ok(fg) => fg,
            Err(e) => return Err(e),
        };
        let e = match self.ex_path() {
            Ok(e) => e,
            Err(e) => return Err(e),
        };
        let a = match fg.ex_path() {
            Ok(a) => a,
            Err(e) => return Err(e),
        };
        let b = match g.i_force(e).ex_path() {
            Ok(b) => b,
            Err(e) => return Err(e),
        };
        if a.same_as(&b) {
            Ok(fg)
        } else {
            Err(PathError::RuntimeEquivalenceMismatch)
        }
    }
}

/// Composition through the path relation `f[g] <=> h`, by the registered
/// path rules.
pub trait Path {
    /// The unchecked composition with `g`.
    spec fn composed(&self, g: Term) -> Result<Term, PathError>;

    /// The checked composition with `g`.
    spec fn composed_checked(&self, g: Term) -> Result<Term, PathError>;

    /// Forced composition: predicts how `g` behaves on the output by the
    /// registered path rule, without a check.
    fn path_force(&self, g: &Term) -> (r: Result<Term, PathError>)
        ensures
            r == self.composed(*g),
    ;

    /// Checked composition by the registered path rule: the result is
    /// compared with a second derivation, and `RuntimeEquivalenceMismatch`
    /// reported where the two disagree.
    fn path(&self, g: &Term) -> (r: Result<Term, PathError>)
        ensures
            r == self.composed_checked(*g),
    ;
}

impl Path for Term {
    open spec fn composed(&self, g: Term) -> Result<Term, PathError> {
        path_forced(*self, g)
    }

    open spec fn composed_checked(&self, g: Term) -> Result<Term, PathError> {
        path_checked(*self, g)
    }

    fn path_force(&self, g: &Term) -> (r: Result<Term, PathError>) {
        match self.path_rule(g) {
            Some(h) => self.path_force_by(g, &h),
            None => Err(PathError::UnsupportedConstraint),
        }
    }

    fn path(&self, g: &Term) -> (r: Result<Term, PathError>) {
        match self.path_rule(g) {
            Some(h) => self.path_by(g, &h),
            None => Err(PathError::UnsupportedConstraint),
        }
    }
}

} // verus!
