//! Path semantics over a closed algebra of constrained functions.
//!
//! A [`Term`] is a function symbol of a fixed, closed set (Boolean operators,
//! parity and order predicates over fixed-width unsigned integers, addition and
//! two kinds of conditional) together with the constraint attached to its
//! input. The library lifts constraints onto terms, reads them back, resolves
//! the existential path of a constrained term (the predicate that describes
//! its possible outputs) from a finite rule table, and composes terms through
//! the path relation `f[g] <=> h`, cross-checking two derivations.
pub mod boolean;
pub mod constrain;
pub mod ex_path;
pub mod laws;
pub mod numeric;
pub mod path;
pub mod render;
pub mod semantics;
pub mod shape;
pub mod term;

pub use crate::constrain::{Constrain, TriPath};
pub use crate::ex_path::ExPath;
pub use crate::path::Path;
pub use crate::render::TrickDisplay;
pub use crate::term::{Con, PathError, Term, Ty};
