//! Human-readable rendering of terms, for diagnostics.
use vstd::prelude::*;

use crate::term::{Con, If, IfK, Term};

verus! {

/// The decimal digit `d`.
pub open spec fn digit(d: nat) -> Seq<char> {
    if d == 0 {
        "0"@
    } else if d == 1 {
        "1"@
    } else if d == 2 {
        "2"@
    } else if d == 3 {
        "3"@
    } else if d == 4 {
        "4"@
    } else if d == 5 {
        "5"@
    } else if d == 6 {
        "6"@
    } else if d == 7 {
        "7"@
    } else if d == 8 {
        "8"@
    } else {
        "9"@
    }
}

/// The decimal notation of `n`.
pub open spec fn decimal(n: nat) -> Seq<char>
    decreases n,
{
    if n < 10 {
        digit(n)
    } else {
        decimal(n / 10) + digit(n % 10)
    }
}

/// The constraint in braces, or nothing where it is `true_1`.
pub open spec fn suffix(c: Con) -> Seq<char>
    decreases c, 1nat,
{
    if c.is_unc() {
        Seq::empty()
    } else {
        "{"@ + rendered_con(c) + "}"@
    }
}

/// The rendering of a constraint: a pair is written `a, b`.
pub open spec fn rendered_con(c: Con) -> Seq<char>
    decreases c, 0nat,
{
    match c {
        Con::One(t) => rendered(*t),
        Con::Two(a, b) => rendered(*a) + ", "@ + rendered(*b),
    }
}

/// The rendering of a term: its name, with literal and constraint. A
/// conditional with bound condition is written
/// `if co(k) {tr} else {fa}`, the constraint attached to both branches;
/// one evaluated on the input is written `if(co, tr, fa)`.
pub open spec fn rendered(t: Term) -> Seq<char>
    decreases t, 0nat,
{
    match t {
            Term::True1 => "true_1"@,
            Term::False1(x) => "false_1"@ + suffix(x.i),
            Term::Id(x) => "id"@ + suffix(x.i),
            Term::Not(x) => "not"@ + suffix(x.i),
            Term::Or(x) => "or"@ + suffix(x.i),
            Term::And(x) => "and"@ + suffix(x.i),
            Term::Eq(x) => "eq"@ + suffix(x.i),
            Term::Xor(x) => "xor"@ + suffix(x.i),
            Term::Nor(x) => "nor"@ + suffix(x.i),
            Term::Nand(x) => "nand"@ + suffix(x.i),
            Term::Exc(x) => "exc"@ + suffix(x.i),
            Term::Nrexc(x) => "nrexc"@ + suffix(x.i),
            Term::Rexc(x) => "rexc"@ + suffix(x.i),
            Term::Nexc(x) => "nexc"@ + suffix(x.i),
            Term::Even(x) => "even"@ + suffix(x.i),
            Term::Odd(x) => "odd"@ + suffix(x.i),
            Term::Add(x) => "add"@ + suffix(x.i),
            Term::EqK(x) => "(= "@ + decimal(x.k as nat) + ")"@ + suffix(x.i),
            Term::GeK(x) => "(>= "@ + decimal(x.k as nat) + ")"@ + suffix(x.i),
            Term::LtK(x) => "(< "@ + decimal(x.k as nat) + ")"@ + suffix(x.i),
            Term::AddK(x) => "add("@ + decimal(x.k as nat) + ")"@ + suffix(x.i),
            Term::IfK(x) => "if "@ + rendered(*x.co) + "("@ + decimal(x.k as nat) + ") {"@
                + rendered(*x.tr) + suffix(x.i) + "} else {"@ + rendered(*x.fa) + suffix(x.i)
                + "}"@,
            Term::If(x) => "if("@ + rendered(*x.co) + ", "@ + rendered(*x.tr) + ", "@ + rendered(
                *x.fa,
            ) + ")"@ + suffix(x.i),
    }
}

/// The decimal digit `d`.
fn digit_str(d: u64) -> (r: &'static str)
    requires
        d < 10,
    ensures
        r@ == digit(d as nat),
{
    if d == 0 {
        "0"
    } else if d == 1 {
        "1"
    } else if d == 2 {
        "2"
    } else if d == 3 {
        "3"
    } else if d == 4 {
        "4"
    } else if d == 5 {
        "5"
    } else if d == 6 {
        "6"
    } else if d == 7 {
        "7"
    } else if d == 8 {
        "8"
    } else {
        "9"
    }
}

/// Appends the decimal notation of `n`.
fn push_decimal(out: &mut String, n: u64)
    ensures
        final(out)@ == old(out)@ + decimal(n as nat),
    decreases n,
{
    if n >= 10 {
        push_decimal(out, n / 10);
    }
    out.append(digit_str(n % 10));
    assert(out@ =~= old(out)@ + decimal(n as nat));
}

/// Appends `name` and the constraint `c` in braces, unless it is `true_1`.
fn render_named(name: &str, c: &Con, out: &mut String)
    ensures
        final(out)@ == old(out)@ + name@ + suffix(*c),
    decreases c, 2nat,
{
    out.append(name);
    c.render_suffix(out);
    assert(out@ =~= old(out)@ + name@ + suffix(*c));
}

/// Appends `open`, the literal `k`, `close` and the constraint `c` in braces,
/// unless it is `true_1`.
fn render_literal(open: &str, k: u64, close: &str, c: &Con, out: &mut String)
    ensures
        final(out)@ == old(out)@ + open@ + decimal(k as nat) + close@ + suffix(*c),
    decreases c, 2nat,
{
    out.append(open);
    push_decimal(out, k);
    out.append(close);
    c.render_suffix(out);
    assert(out@ =~= old(out)@ + open@ + decimal(k as nat) + close@ + suffix(*c));
}

/// Appends the rendering of a conditional with bound condition.
fn render_if_k(x: &IfK, out: &mut String)
    ensures
        final(out)@ == old(out)@ + rendered(Term::IfK(*x)),
    decreases x, 2nat,
{
    out.append("if ");
    x.co.render_into(out);
    out.append("(");
    push_decimal(out, x.k);
    out.append(") {");
    x.tr.render_into(out);
    x.i.render_suffix(out);
    out.append("} else {");
    x.fa.render_into(out);
    x.i.render_suffix(out);
    out.append("}");
    let ghost text = rendered(Term::IfK(*x));
    assert(text == "if "@ + rendered(*x.co) + "("@ + decimal(x.k as nat) + ") {"@ + rendered(*x.tr)
        + suffix(x.i) + "} else {"@ + rendered(*x.fa) + suffix(x.i) + "}"@);
    assert(out@ =~= old(out)@ + text);
}

/// Appends the rendering of a conditional evaluated on the input.
fn render_if(x: &If, out: &mut String)
    ensures
        final(out)@ == old(out)@ + rendered(Term::If(*x)),
    decreases x, 2nat,
{
    out.append("if(");
    x.co.render_into(out);
    out.append(", ");
    x.tr.render_into(out);
    out.append(", ");
    x.fa.render_into(out);
    out.append(")");
    x.i.render_suffix(out);
    assert(out@ =~= old(out)@ + rendered(Term::If(*x)));
}

impl Con {
    /// Appends the constraint in braces, unless it is `true_1`.
    fn render_suffix(&self, out: &mut String)
        ensures
            final(out)@ == old(out)@ + suffix(*self),
        decreases self, 1nat,
    {
        if !self.is_unconstrained() {
            out.append("{");
            self.render_into(out);
            out.append("}");
        }
        assert(out@ =~= old(out)@ + suffix(*self));
    }

    /// Appends the rendering of the constraint.
    fn render_into(&self, out: &mut String)
        ensures
            final(out)@ == old(out)@ + rendered_con(*self),
        decreases self, 0nat,
    {
        match self {
            Con::One(t) => t.render_into(out),
            Con::Two(a, b) => {
                a.render_into(out);
                out.append(", ");
                b.render_into(out);
            },
        }
        assert(out@ =~= old(out)@ + rendered_con(*self));
    }
}

impl Term {
    /// Appends the rendering of the term.
    fn render_into(&self, out: &mut String)
        ensures
            final(out)@ == old(out)@ + rendered(*self),
        decreases self, 0nat,
    {
        match self {
            Term::True1 => out.append("true_1"),
            Term::False1(x) => render_named("false_1", &x.i, out),
            Term::Id(x) => render_named("id", &x.i, out),
            Term::Not(x) => render_named("not", &x.i, out),
            Term::Or(x) => render_named("or", &x.i, out),
            Term::And(x) => render_named("and", &x.i, out),
            Term::Eq(x) => render_named("eq", &x.i, out),
            Term::Xor(x) => render_named("xor", &x.i, out),
            Term::Nor(x) => render_named("nor", &x.i, out),
            Term::Nand(x) => render_named("nand", &x.i, out),
            Term::Exc(x) => render_named("exc", &x.i, out),
            Term::Nrexc(x) => render_named("nrexc", &x.i, out),
            Term::Rexc(x) => render_named("rexc", &x.i, out),
            Term::Nexc(x) => render_named("nexc", &x.i, out),
            Term::Even(x) => render_named("even", &x.i, out),
            Term::Odd(x) => render_named("odd", &x.i, out),
            Term::Add(x) => render_named("add", &x.i, out),
            Term::EqK(x) => render_literal("(= ", x.k, ")", &x.i, out),
            Term::GeK(x) => render_literal("(>= ", x.k, ")", &x.i, out),
            Term::LtK(x) => render_literal("(< ", x.k, ")", &x.i, out),
            Term::AddK(x) => render_literal("add(", x.k, ")", &x.i, out),
            Term::IfK(x) => render_if_k(x, out),
            Term::If(x) => render_if(x, out),
        }
    }
}

/// Rendering as text, for diagnostics.
pub trait TrickDisplay {
    /// The text of the value.
    spec fn text(&self) -> Seq<char>;

    /// The rendering, e.g. `and{not}` for `and` constrained by `not`; the
    /// unconstrained marker renders as `true_1`.
    fn render(&self) -> (r: String)
        ensures
            r@ == self.text(),
    ;
}

impl TrickDisplay for Term {
    open spec fn text(&self) -> Seq<char> {
        rendered(*self)
    }

    fn render(&self) -> (r: String) {
        let mut out = String::new();
        self.render_into(&mut out);
        out
    }
}

impl TrickDisplay for Con {
    open spec fn text(&self) -> Seq<char> {
        rendered_con(*self)
    }

    fn render(&self) -> (r: String) {
        let mut out = String::new();
        self.render_into(&mut out);
        out
    }
}

} // verus!
