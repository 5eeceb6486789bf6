//! The rule table of the Boolean operators.
use vstd::prelude::*;

use crate::shape::{Atom, Shape};
use crate::term::{one, t_id, t_not, two, unc, Con, Term, Ty};

verus! {

/// The binary Boolean operators.
#[derive(Clone, Copy, Debug, PartialEq, Eq, Structural)]
pub enum BinOp {
    And,
    Or,
    Equals,
    Xor,
    Nand,
    Nor,
    Exc,
    Nrexc,
    Rexc,
    Nexc,
}

/// What a constraint leaves open of a Boolean input.
#[derive(Clone, Copy, Debug, PartialEq, Eq, Structural)]
pub enum Tri {
    /// Unconstrained: either value.
    Any,
    /// Forced true.
    True,
    /// Forced false.
    False,
}

/// The truth table of each operator.
pub open spec fn eval(op: BinOp, a: bool, b: bool) -> bool {
    match op {
        BinOp::And => a && b,
        BinOp::Or => a || b,
        BinOp::Equals => a == b,
        BinOp::Xor => a != b,
        BinOp::Nand => !(a && b),
        BinOp::Nor => !(a || b),
        BinOp::Exc => a && !b,
        BinOp::Nrexc => a || !b,
        BinOp::Rexc => !a && b,
        BinOp::Nexc => !a || b,
    }
}

/// Whether `v` satisfies the constraint `c`.
pub open spec fn allows(c: Tri, v: bool) -> bool {
    match c {
        Tri::Any => true,
        Tri::True => v,
        Tri::False => !v,
    }
}

/// Whether some inputs allowed by `a` and `b` make `op` return `out`.
pub open spec fn reaches(op: BinOp, a: Tri, b: Tri, out: bool) -> bool {
    ||| allows(a, true) && allows(b, true) && eval(op, true, true) == out
    ||| allows(a, true) && allows(b, false) && eval(op, true, false) == out
    ||| allows(a, false) && allows(b, true) && eval(op, false, true) == out
    ||| allows(a, false) && allows(b, false) && eval(op, false, false) == out
}

/// The outputs that `op` can produce on inputs allowed by `a` and `b`.
pub open spec fn image(op: BinOp, a: Tri, b: Tri) -> Tri {
    if reaches(op, a, b, true) && reaches(op, a, b, false) {
        Tri::Any
    } else if reaches(op, a, b, true) {
        Tri::True
    } else {
        Tri::False
    }
}

/// The outputs of negation on inputs allowed by `a`.
pub open spec fn negate(a: Tri) -> Tri {
    match a {
        Tri::Any => Tri::Any,
        Tri::True => Tri::False,
        Tri::False => Tri::True,
    }
}

/// The Boolean constraint that an atom stands for, if it stands for one.
pub open spec fn tri_of(a: Atom) -> Option<Tri> {
    match a {
        Atom::True1 => Some(Tri::Any),
        Atom::IdBool => Some(Tri::True),
        Atom::Not => Some(Tri::False),
        _ => None,
    }
}

/// The predicate that stands for a Boolean constraint.
pub open spec fn tri_term(t: Tri) -> Term {
    match t {
        Tri::Any => Term::True1,
        Tri::True => t_id(Ty::Bool),
        Tri::False => t_not(),
    }
}

/// Whether the operator, with both arguments unconstrained by a pair,
/// resolves each argument on its own into a pair of `true_1`.
pub open spec fn splits_free_pair(op: BinOp) -> bool {
    op is And || op is Or || op is Equals || op is Xor || op is Nand || op is Nor
}

/// The existential path of a binary Boolean operator under a constraint of
/// shape `s`: the outputs reachable from the allowed inputs, where a single
/// constraint applies to both arguments.
pub open spec fn ex_binary(op: BinOp, s: Shape) -> Option<Con> {
    match s {
        Shape::One(a) => match tri_of(a) {
            Some(t) => Some(one(tri_term(image(op, t, t)))),
            None => None,
        },
        Shape::Two(a, b) => if a is True1 && b is True1 && splits_free_pair(op) {
            Some(two(Term::True1, Term::True1))
        } else {
            match (tri_of(a), tri_of(b)) {
                (Some(x), Some(y)) => Some(one(tri_term(image(op, x, y)))),
                _ => None,
            }
        },
    }
}

/// The existential path of negation under a constraint of shape `s`. A pair
/// is negated argument by argument.
pub open spec fn ex_not(s: Shape) -> Option<Con> {
    match s {
        Shape::One(a) => match tri_of(a) {
            Some(t) => Some(one(tri_term(negate(t)))),
            None => None,
        },
        Shape::Two(a, b) => match (tri_of(a), tri_of(b)) {
            (Some(x), Some(y)) => Some(two(tri_term(negate(x)), tri_term(negate(y)))),
            _ => None,
        },
    }
}

/// The existential path of `id` over `ty` under a constraint of shape `s`.
pub open spec fn ex_id(ty: Ty, s: Shape) -> Option<Con> {
    match s {
        Shape::One(Atom::True1) => Some(unc()),
        Shape::One(Atom::Not) => if ty == Ty::Bool {
            Some(one(t_not()))
        } else {
            None
        },
        _ => None,
    }
}

impl Tri {
    /// The constraint that an atom stands for, if it stands for one.
    pub fn from_atom(a: Atom) -> (r: Option<Tri>)
        ensures
            r == tri_of(a),
    {
        match a {
            Atom::True1 => Some(Tri::Any),
            Atom::IdBool => Some(Tri::True),
            Atom::Not => Some(Tri::False),
            _ => None,
        }
    }

    /// The predicate that stands for the constraint.
    pub fn to_term(self) -> (r: Term)
        ensures
            r == tri_term(self),
    {
        match self {
            Tri::Any => Term::True1,
            Tri::True => Term::new_id(Ty::Bool),
            Tri::False => Term::new_not(),
        }
    }

    /// Negation of the constraint.
    pub fn negated(self) -> (r: Tri)
        ensures
            r == negate(self),
    {
        match self {
            Tri::Any => Tri::Any,
            Tri::True => Tri::False,
            Tri::False => Tri::True,
        }
    }
}

/// The rule table of the binary Boolean operators, one entry for each
/// operator and each pair of input constraints.
pub fn bool_table(op: BinOp, a: Tri, b: Tri) -> (r: Tri)
    ensures
        r == image(op, a, b),
{
    match op {
        BinOp::And => match (a, b) {
            (Tri::Any, Tri::Any) => Tri::Any,
            (Tri::Any, Tri::True) => Tri::Any,
            (Tri::Any, Tri::False) => Tri::False,
            (Tri::True, Tri::Any) => Tri::Any,
            (Tri::True, Tri::True) => Tri::True,
            (Tri::True, Tri::False) => Tri::False,
            (Tri::False, Tri::Any) => Tri::False,
            (Tri::False, Tri::True) => Tri::False,
            (Tri::False, Tri::False) => Tri::False,
        },
        BinOp::Or => match (a, b) {
            (Tri::Any, Tri::Any) => Tri::Any,
            (Tri::Any, Tri::True) => Tri::True,
            (Tri::Any, Tri::False) => Tri::Any,
            (Tri::True, Tri::Any) => Tri::True,
            (Tri::True, Tri::True) => Tri::True,
            (Tri::True, Tri::False) => Tri::True,
            (Tri::False, Tri::Any) => Tri::Any,
            (Tri::False, Tri::True) => Tri::True,
            (Tri::False, Tri::False) => Tri::False,
        },
        BinOp::Equals => match (a, b) {
            (Tri::Any, Tri::Any) => Tri::Any,
            (Tri::Any, Tri::True) => Tri::Any,
            (Tri::Any, Tri::False) => Tri::Any,
            (Tri::True, Tri::Any) => Tri::Any,
            (Tri::True, Tri::True) => Tri::True,
            (Tri::True, Tri::False) => Tri::False,
            (Tri::False, Tri::Any) => Tri::Any,
            (Tri::False, Tri::True) => Tri::False,
            (Tri::False, Tri::False) => Tri::True,
        },
        BinOp::Xor => match (a, b) {
            (Tri::Any, Tri::Any) => Tri::Any,
            (Tri::Any, Tri::True) => Tri::Any,
            (Tri::Any, Tri::False) => Tri::Any,
            (Tri::True, Tri::Any) => Tri::Any,
            (Tri::True, Tri::True) => Tri::False,
            (Tri::True, Tri::False) => Tri::True,
            (Tri::False, Tri::Any) => Tri::Any,
            (Tri::False, Tri::True) => Tri::True,
            (Tri::False, Tri::False) => Tri::False,
        },
        BinOp::Nand => match (a, b) {
            (Tri::Any, Tri::Any) => Tri::Any,
            (Tri::Any, Tri::True) => Tri::Any,
            (Tri::Any, Tri::False) => Tri::True,
            (Tri::True, Tri::Any) => Tri::Any,
            (Tri::True, Tri::True) => Tri::False,
            (Tri::True, Tri::False) => Tri::True,
            (Tri::False, Tri::Any) => Tri::True,
            (Tri::False, Tri::True) => Tri::True,
            (Tri::False, Tri::False) => Tri::True,
        },
        BinOp::Nor => match (a, b) {
            (Tri::Any, Tri::Any) => Tri::Any,
            (Tri::Any, Tri::True) => Tri::False,
            (Tri::Any, Tri::False) => Tri::Any,
            (Tri::True, Tri::Any) => Tri::False,
            (Tri::True, Tri::True) => Tri::False,
            (Tri::True, Tri::False) => Tri::False,
            (Tri::False, Tri::Any) => Tri::Any,
            (Tri::False, Tri::True) => Tri::False,
            (Tri::False, Tri::False) => Tri::True,
        },
        BinOp::Exc => match (a, b) {
            (Tri::Any, Tri::Any) => Tri::Any,
            (Tri::Any, Tri::True) => Tri::False,
            (Tri::Any, Tri::False) => Tri::Any,
            (Tri::True, Tri::Any) => Tri::Any,
            (Tri::True, Tri::True) => Tri::False,
            (Tri::True, Tri::False) => Tri::True,
            (Tri::False, Tri::Any) => Tri::False,
            (Tri::False, Tri::True) => Tri::False,
            (Tri::False, Tri::False) => Tri::False,
        },
        BinOp::Nrexc => match (a, b) {
            (Tri::Any, Tri::Any) => Tri::Any,
            (Tri::Any, Tri::True) => Tri::Any,
            (Tri::Any, Tri::False) => Tri::True,
            (Tri::True, Tri::Any) => Tri::True,
            (Tri::True, Tri::True) => Tri::True,
            (Tri::True, Tri::False) => Tri::True,
            (Tri::False, Tri::Any) => Tri::Any,
            (Tri::False, Tri::True) => Tri::False,
            (Tri::False, Tri::False) => Tri::True,
        },
        BinOp::Rexc => match (a, b) {
            (Tri::Any, Tri::Any) => Tri::Any,
            (Tri::Any, Tri::True) => Tri::Any,
            (Tri::Any, Tri::False) => Tri::False,
            (Tri::True, Tri::Any) => Tri::False,
            (Tri::True, Tri::True) => Tri::False,
            (Tri::True, Tri::False) => Tri::False,
            (Tri::False, Tri::Any) => Tri::Any,
            (Tri::False, Tri::True) => Tri::True,
            (Tri::False, Tri::False) => Tri::False,
        },
        BinOp::Nexc => match (a, b) {
            (Tri::Any, Tri::Any) => Tri::Any,
            (Tri::Any, Tri::True) => Tri::True,
            (Tri::Any, Tri::False) => Tri::Any,
            (Tri::True, Tri::Any) => Tri::Any,
            (Tri::True, Tri::True) => Tri::True,
            (Tri::True, Tri::False) => Tri::False,
            (Tri::False, Tri::Any) => Tri::True,
            (Tri::False, Tri::True) => Tri::True,
            (Tri::False, Tri::False) => Tri::True,
        },
    }
}

impl BinOp {
    /// Whether the operator splits a pair of unconstrained arguments.
    pub fn splits_free_pair(self) -> (r: bool)
        ensures
            r == splits_free_pair(self),
    {
        matches!(
            self,
            BinOp::And | BinOp::Or | BinOp::Equals | BinOp::Xor | BinOp::Nand | BinOp::Nor
        )
    }

    /// The existential path of the operator under a constraint of shape `s`.
    pub fn ex_path(self, s: Shape) -> (r: Option<Con>)
        ensures
            r == ex_binary(self, s),
    {
        match s {
            Shape::One(a) => match Tri::from_atom(a) {
                Some(t) => Some(Con::one(bool_table(self, t, t).to_term())),
                None => None,
            },
            Shape::Two(a, b) => if matches!(a, Atom::True1) && matches!(b, Atom::True1)
                && self.splits_free_pair() {
                Some(Con::two(Term::True1, Term::True1))
            } else {
                match (Tri::from_atom(a), Tri::from_atom(b)) {
                    (Some(x), Some(y)) => Some(Con::one(bool_table(self, x, y).to_term())),
                    _ => None,
                }
            },
        }
    }
}

/// The existential path of negation under a constraint of shape `s`.
pub fn not_ex_path(s: Shape) -> (r: Option<Con>)
    ensures
        r == ex_not(s),
{
    match s {
        Shape::One(a) => match Tri::from_atom(a) {
            Some(t) => Some(Con::one(t.negated().to_term())),
            None => None,
        },
        Shape::Two(a, b) => match (Tri::from_atom(a), Tri::from_atom(b)) {
            (Some(x), Some(y)) => Some(Con::two(x.negated().to_term(), y.negated().to_term())),
            _ => None,
        },
    }
}

/// The existential path of `id` over `ty` under a constraint of shape `s`.
pub fn id_ex_path(ty: Ty, s: Shape) -> (r: Option<Con>)
    ensures
        r == ex_id(ty, s),
{
    match s {
        Shape::One(Atom::True1) => Some(Con::unc()),
        Shape::One(Atom::Not) => if matches!(ty, Ty::Bool) {
            Some(Con::one(Term::new_not()))
        } else {
            None
        },
        _ => None,
    }
}

} // verus!
