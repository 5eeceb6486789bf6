//! Resolution of the existential path of a constrained term.
use vstd::prelude::*;

use crate::boolean::{ex_binary, ex_id, ex_not, id_ex_path, not_ex_path, BinOp};
use crate::constrain::Constrain;
use crate::numeric::{
    add_ex_path, add_k_ex_path, eq_ex_path, eq_k_ex_path, ex_add, ex_add_k, ex_eq, ex_eq_k,
    ex_ge_k, ex_if, ex_lt_k, ex_parity, ge_k_ex_path, if_ex_path, lt_k_ex_path, parity_ex_path,
};
use crate::shape::{atom, shape};
use crate::term::{one, resolved, t_id, t_not, unc, Con, IfK, PathError, Term, Ty};

verus! {

impl Term {
    /// The rule table: the existential path of a term whose tag is neither
    /// conditional, by its tag and the normalised shape of its constraint.
    pub open spec fn table_path(self) -> Option<Con> {
        match self {
            Term::True1 => Some(one(t_id(Ty::Bool))),
            Term::False1(_) => Some(one(t_not())),
            Term::Id(x) => ex_id(x.ty, shape(x.i)),
            Term::Not(x) => ex_not(shape(x.i)),
            Term::Or(x) => ex_binary(BinOp::Or, shape(x.i)),
            Term::And(x) => ex_binary(BinOp::And, shape(x.i)),
            Term::Xor(x) => ex_binary(BinOp::Xor, shape(x.i)),
            Term::Nor(x) => ex_binary(BinOp::Nor, shape(x.i)),
            Term::Nand(x) => ex_binary(BinOp::Nand, shape(x.i)),
            Term::Exc(x) => ex_binary(BinOp::Exc, shape(x.i)),
            Term::Nrexc(x) => ex_binary(BinOp::Nrexc, shape(x.i)),
            Term::Rexc(x) => ex_binary(BinOp::Rexc, shape(x.i)),
            Term::Nexc(x) => ex_binary(BinOp::Nexc, shape(x.i)),
            Term::Eq(x) => ex_eq(x.ty, shape(x.i)),
            Term::EqK(x) => ex_eq_k(x.ty, x.k, shape(x.i)),
            Term::Even(x) => ex_parity(x.ty, shape(x.i), true),
            Term::Odd(x) => ex_parity(x.ty, shape(x.i), false),
            Term::Add(x) => ex_add(x.ty, shape(x.i)),
            Term::AddK(x) => ex_add_k(x.ty, x.k, shape(x.i)),
            Term::GeK(x) => ex_ge_k(x.ty, x.k, shape(x.i)),
            Term::LtK(x) => ex_lt_k(x.ty, x.k, shape(x.i)),
            _ => None,
        }
    }

    /// The existential path of the term: the predicate that describes what
    /// the function can output under its constraint, as the rule table
    /// gives it; `None` where the table has no entry.
    ///
    /// A conditional with bound condition resolves branch by branch; one
    /// evaluated on the input, whose two branches are the same, resolves as
    /// that branch under the conditional's constraint.
    pub open spec fn existential_path(self) -> Option<Con>
        decreases self.size(),
        via Self::existential_path_decreases
    {
        match self {
            Term::IfK(x) => if x.i.is_unc() {
                match (x.tr.existential_path(), x.fa.existential_path()) {
                    (Some(Con::One(a)), Some(Con::One(b))) => Some(
                        one(Term::IfK(IfK { ty: x.ty, k: x.k, co: x.co, tr: a, fa: b, i: unc() })),
                    ),
                    _ => None,
                }
            } else {
                None
            },
            Term::If(x) => if x.tr == x.fa {
                x.tr.lift(x.i).existential_path()
            } else {
                ex_if(atom(*x.co), atom(*x.tr), atom(*x.fa), shape(x.i))
            },
            _ => self.table_path(),
        }
    }

    /// Lifting replaces the constraint, so the size grows by at most the
    /// size of the new constraint.
    pub proof fn lemma_lift_size(self, c: Con)
        ensures
            self.lift(c).size() <= self.size() + c.size(),
    {
    }

    #[via_fn]
    proof fn existential_path_decreases(self) {
        match self {
            Term::If(x) => if x.tr == x.fa {
                x.tr.lemma_lift_size(x.i);
            },
            _ => {},
        }
    }

    /// Looks the term up in the rule table; see [`Term::table_path`].
    fn table_ex_path(&self) -> (r: Option<Con>)
        ensures
            r == self.table_path(),
    {
        match self {
            Term::True1 => Some(Con::one(Term::new_id(Ty::Bool))),
            Term::False1(_) => Some(Con::one(Term::new_not())),
            Term::Id(x) => id_ex_path(x.ty, x.i.shape()),
            Term::Not(x) => not_ex_path(x.i.shape()),
            Term::Or(x) => BinOp::Or.ex_path(x.i.shape()),
            Term::And(x) => BinOp::And.ex_path(x.i.shape()),
            Term::Xor(x) => BinOp::Xor.ex_path(x.i.shape()),
            Term::Nor(x) => BinOp::Nor.ex_path(x.i.shape()),
            Term::Nand(x) => BinOp::Nand.ex_path(x.i.shape()),
            Term::Exc(x) => BinOp::Exc.ex_path(x.i.shape()),
            Term::Nrexc(x) => BinOp::Nrexc.ex_path(x.i.shape()),
            Term::Rexc(x) => BinOp::Rexc.ex_path(x.i.shape()),
            Term::Nexc(x) => BinOp::Nexc.ex_path(x.i.shape()),
            Term::Eq(x) => eq_ex_path(x.ty, x.i.shape()),
            Term::EqK(x) => eq_k_ex_path(x.ty, x.k, x.i.shape()),
            Term::Even(x) => parity_ex_path(x.ty, x.i.shape(), true),
            Term::Odd(x) => parity_ex_path(x.ty, x.i.shape(), false),
            Term::Add(x) => add_ex_path(x.ty, x.i.shape()),
            Term::AddK(x) => add_k_ex_path(x.ty, x.k, x.i.shape()),
            Term::GeK(x) => ge_k_ex_path(x.ty, x.k, x.i.shape()),
            Term::LtK(x) => lt_k_ex_path(x.ty, x.k, x.i.shape()),
            _ => None,
        }
    }
}

impl Con {
    /// The existential path of a single predicate; a pair has none.
    pub open spec fn existential_path(self) -> Option<Con> {
        match self {
            Con::One(t) => t.existential_path(),
            Con::Two(_, _) => None,
        }
    }
}

/// Resolution of the existential path.
pub trait ExPath {
    /// The existential path, where the rule table gives one.
    spec fn resolution(&self) -> Option<Con>;

    /// Resolves the existential path, or fails with `UnsupportedConstraint`
    /// where the rule table has no entry.
    fn ex_path(&self) -> (r: Result<Con, PathError>)
        ensures
            r == resolved(self.resolution()),
    ;
}

impl ExPath for Term {
    open spec fn resolution(&self) -> Option<Con> {
        self.existential_path()
    }

    /// Resolves the existential path of the term, or fails with
    /// `UnsupportedConstraint` where the rule table has no entry.
    fn ex_path(&self) -> (r: Result<Con, PathError>)
        decreases self.size(),
    {
        let o = match self {
            Term::IfK(x) => {
                if !x.i.is_unconstrained() {
                    return Err(PathError::UnsupportedConstraint);
                }
                let tr = x.tr.ex_path();
                let fa = x.fa.ex_path();
                match (tr, fa) {
                    (Ok(Con::One(a)), Ok(Con::One(b))) => Some(
                        Con::one(
                            Term::IfK(
                                IfK {
                                    ty: x.ty,
                                    k: x.k,
                                    co: Box::new(x.co.copy()),
                                    tr: a,
                                    fa: b,
                                    i: Con::unc(),
                                },
                            ),
                        ),
                    ),
                    _ => None,
                }
            },
            Term::If(x) => {
                if x.tr.same_as(&x.fa) {
                    proof {
                        x.tr.lemma_lift_size(x.i);
                    }
                    return x.tr.i_force(x.i.copy()).ex_path();
                }
                if_ex_path(x.co.atom(), x.tr.atom(), x.fa.atom(), x.i.shape())
            },
            _ => self.table_ex_path(),
        };
        match o {
            Some(c) => Ok(c),
            None => Err(PathError::UnsupportedConstraint),
        }
    }
}

impl ExPath for Con {
    open spec fn resolution(&self) -> Option<Con> {
        self.existential_path()
    }

    /// Resolves the existential path of a single predicate, so that
    /// resolution can be applied again to its own result; a pair fails with
    /// `UnsupportedConstraint`.
    fn ex_path(&self) -> (r: Result<Con, PathError>) {
        match self {
            Con::One(t) => t.ex_path(),
            Con::Two(_, _) => Err(PathError::UnsupportedConstraint),
        }
    }
}

} // verus!
