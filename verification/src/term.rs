//! Terms: the tree of a program.

use vstd::prelude::*;
use vstd::std_specs::cmp::PartialEqSpec;
use vstd::string::StringExecFns;

use crate::builtin::Builtin;
use crate::constant::Const;
use crate::render::Render;

verus! {

/// A node of the syntax tree, over the representation `N` of variable names.
/// A node owns its children: the tree has no sharing and no cycles.
#[derive(Debug)]
pub enum Term<N> {
    /// A literal.
    Constant(Const),
    /// A primitive operation.
    Builtin(Builtin),
    /// A reference to a variable.
    Var(N),
    /// A function: the bound name and the body.
    LamAbs(N, Box<Term<N>>),
    /// An application: the function and its argument.
    Apply(Box<Term<N>>, Box<Term<N>>),
    /// A suspended computation.
    Delay(Box<Term<N>>),
    /// The resumption of a suspended computation.
    Force(Box<Term<N>>),
    /// The term that fails.
    Error,
}

/// The canonical text of a term.
///
/// A function is written on three lines: the bound name on the opening line,
/// the body behind one space on the next, the closing parenthesis on the
/// last. An application is written between square brackets, each subterm on
/// a line of its own.
pub open spec fn term_text<N: Render>(t: Term<N>) -> Seq<char>
    decreases t,
{
    match t {
        Term::Constant(c) => c.rendering(),
        Term::Builtin(b) => "(builtin "@ + b.rendering() + ")"@,
        Term::Var(n) => n.rendering(),
        Term::LamAbs(n, body) => "(lam "@ + n.rendering() + "\n "@ + term_text(*body) + "\n)"@,
        Term::Apply(f, x) => "[\n"@ + term_text(*f) + "\n"@ + term_text(*x) + "\n]"@,
        Term::Delay(body) => "(delay "@ + term_text(*body) + ")"@,
        Term::Force(body) => "(force "@ + term_text(*body) + ")"@,
        Term::Error => "(error)"@,
    }
}

/// Appends the canonical text of `t` to `out`.
fn push_term<N: Render>(t: &Term<N>, out: &mut String)
    ensures
        final(out)@ == old(out)@ + term_text(*t),
    decreases t,
{
    match t {
        Term::Constant(c) => {
            c.render_into(out);
        },
        Term::Builtin(b) => {
            out.append("(builtin ");
            b.render_into(out);
            out.append(")");
        },
        Term::Var(n) => {
            n.render_into(out);
        },
        Term::LamAbs(n, body) => {
            out.append("(lam ");
            n.render_into(out);
            out.append("\n ");
            push_term(body, out);
            out.append("\n)");
        },
        Term::Apply(f, x) => {
            out.append("[\n");
            push_term(f, out);
            out.append("\n");
            push_term(x, out);
            out.append("\n]");
        },
        Term::Delay(body) => {
            out.append("(delay ");
            push_term(body, out);
            out.append(")");
        },
        Term::Force(body) => {
            out.append("(force ");
            push_term(body, out);
            out.append(")");
        },
        Term::Error => {
            out.append("(error)");
        },
    }
}

impl<N: Render> Render for Term<N> {
    open spec fn rendering(&self) -> Seq<char> {
        term_text(*self)
    }

    fn render_into(&self, out: &mut String) {
        push_term(self, out);
    }
}

/// Structural equality of terms: the same variant, equal payloads, equal
/// children. Names are compared as `N` compares them.
pub open spec fn term_eq<N: PartialEq>(a: Term<N>, b: Term<N>) -> bool
    decreases a,
{
    match (a, b) {
        (Term::Constant(c), Term::Constant(d)) => c@ == d@,
        (Term::Builtin(x), Term::Builtin(y)) => x == y,
        (Term::Var(n), Term::Var(m)) => n.eq_spec(&m),
        (Term::LamAbs(n, t), Term::LamAbs(m, u)) => n.eq_spec(&m) && term_eq(*t, *u),
        (Term::Apply(f, x), Term::Apply(g, y)) => term_eq(*f, *g) && term_eq(*x, *y),
        (Term::Delay(t), Term::Delay(u)) => term_eq(*t, *u),
        (Term::Force(t), Term::Force(u)) => term_eq(*t, *u),
        (Term::Error, Term::Error) => true,
        _ => false,
    }
}

/// Compares two terms node by node.
fn terms_equal<N: PartialEq>(a: &Term<N>, b: &Term<N>) -> (equal: bool)
    ensures
        N::obeys_eq_spec() ==> equal == term_eq(*a, *b),
    decreases a,
{
    match (a, b) {
        (Term::Constant(c), Term::Constant(d)) => *c == *d,
        (Term::Builtin(x), Term::Builtin(y)) => *x == *y,
        (Term::Var(n), Term::Var(m)) => *n == *m,
        (Term::LamAbs(n, t), Term::LamAbs(m, u)) => *n == *m && terms_equal(t, u),
        (Term::Apply(f, x), Term::Apply(g, y)) => terms_equal(f, g) && terms_equal(x, y),
        (Term::Delay(t), Term::Delay(u)) => terms_equal(t, u),
        (Term::Force(t), Term::Force(u)) => terms_equal(t, u),
        (Term::Error, Term::Error) => true,
        _ => false,
    }
}

impl<N: PartialEq> PartialEq for Term<N> {
    fn eq(&self, other: &Term<N>) -> (equal: bool) {
        terms_equal(self, other)
    }
}

/// Equality of terms is structural, and means what `N` lets it mean: it is
/// specified whenever the equality of `N` is.
impl<N: PartialEq> vstd::std_specs::cmp::PartialEqSpecImpl for Term<N> {
    open spec fn obeys_eq_spec() -> bool {
        N::obeys_eq_spec()
    }

    open spec fn eq_spec(&self, other: &Term<N>) -> bool {
        term_eq(*self, *other)
    }
}

} // verus!
