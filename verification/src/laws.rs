//! What holds of equality and of rendering, for every value.

use vstd::prelude::*;
use vstd::std_specs::cmp::PartialEqSpec;

use crate::constant::Const;
use crate::integer::integer_value;
use crate::name::Name;
use crate::program::Program;
use crate::render::Render;
use crate::term::{term_eq, term_text, Term};

verus! {

/// Whether the equality of `T` is reflexive.
pub open spec fn eq_is_reflexive<T: PartialEq>() -> bool {
    forall|x: T| #[trigger] x.eq_spec(&x)
}

/// Whether the equality of `T` is symmetric.
pub open spec fn eq_is_symmetric<T: PartialEq>() -> bool {
    forall|x: T, y: T| #[trigger] x.eq_spec(&y) ==> y.eq_spec(&x)
}

/// Whether the equality of `T` is transitive.
pub open spec fn eq_is_transitive<T: PartialEq>() -> bool {
    forall|x: T, y: T, z: T| #[trigger] x.eq_spec(&y) && #[trigger] y.eq_spec(&z) ==> x.eq_spec(&z)
}

/// Whether the equality of `T` is an equivalence relation.
pub open spec fn eq_is_equivalence<T: PartialEq>() -> bool {
    &&& eq_is_reflexive::<T>()
    &&& eq_is_symmetric::<T>()
    &&& eq_is_transitive::<T>()
}

/// Whether values of `T` that are equal have the same canonical text.
pub open spec fn rendering_respects_eq<T: PartialEq + Render>() -> bool {
    forall|x: T, y: T| #[trigger] x.eq_spec(&y) ==> x.rendering() == y.rendering()
}

/// Equality of literals is an equivalence relation.
pub proof fn lemma_const_eq_equivalence()
    ensures
        eq_is_equivalence::<Const>(),
{
}

/// Literals of different kinds are never equal, and literals of one kind are
/// equal exactly when their payloads are: integers by value, strings item by
/// item.
pub proof fn lemma_const_eq_sensitive(a: Const, b: Const)
    ensures
        a.eq_spec(&b) <==> match (a, b) {
            (Const::IntConst(x), Const::IntConst(y)) => integer_value(x) == integer_value(y),
            (Const::ByteStringConst(x), Const::ByteStringConst(y)) => x@ == y@,
            (Const::StringConst(x), Const::StringConst(y)) => x@ == y@,
            (Const::CharConst(x), Const::CharConst(y)) => x == y,
            (Const::UnitConst, Const::UnitConst) => true,
            (Const::BoolConst(x), Const::BoolConst(y)) => x == y,
            _ => false,
        },
{
}

/// Equal literals have the same canonical text.
pub proof fn lemma_const_rendering_respects_eq()
    ensures
        rendering_respects_eq::<Const>(),
{
}

/// Equality of names is an equivalence relation.
pub proof fn lemma_name_eq_equivalence()
    ensures
        eq_is_equivalence::<Name>(),
{
}

/// Two names are equal exactly when the identifiers agree character by
/// character and the numbers agree.
pub proof fn lemma_name_eq_sensitive(a: Name, b: Name)
    ensures
        a.eq_spec(&b) <==> a.id@ == b.id@ && a.uniq == b.uniq,
{
}

/// Equal names have the same canonical text.
pub proof fn lemma_name_rendering_respects_eq()
    ensures
        rendering_respects_eq::<Name>(),
{
}

/// A term equals itself, where every name does.
pub proof fn lemma_term_eq_reflexive<N: PartialEq>(t: Term<N>)
    requires
        eq_is_reflexive::<N>(),
    ensures
        t.eq_spec(&t),
    decreases t,
{
    match t {
        Term::LamAbs(_, body) => {
            lemma_term_eq_reflexive(*body);
        },
        Term::Apply(f, x) => {
            lemma_term_eq_reflexive(*f);
            lemma_term_eq_reflexive(*x);
        },
        Term::Delay(body) => {
            lemma_term_eq_reflexive(*body);
        },
        Term::Force(body) => {
            lemma_term_eq_reflexive(*body);
        },
        _ => {},
    }
}

/// Equality of terms can be read in either direction, where that of names
/// can.
pub proof fn lemma_term_eq_symmetric<N: PartialEq>(a: Term<N>, b: Term<N>)
    requires
        eq_is_symmetric::<N>(),
        a.eq_spec(&b),
    ensures
        b.eq_spec(&a),
    decreases a,
{
    match (a, b) {
        (Term::LamAbs(_, t), Term::LamAbs(_, u)) => {
            lemma_term_eq_symmetric(*t, *u);
        },
        (Term::Apply(f, x), Term::Apply(g, y)) => {
            lemma_term_eq_symmetric(*f, *g);
            lemma_term_eq_symmetric(*x, *y);
        },
        (Term::Delay(t), Term::Delay(u)) => {
            lemma_term_eq_symmetric(*t, *u);
        },
        (Term::Force(t), Term::Force(u)) => {
            lemma_term_eq_symmetric(*t, *u);
        },
        _ => {},
    }
}

/// Two terms that equal a third equal each other, where names do.
pub proof fn lemma_term_eq_transitive<N: PartialEq>(a: Term<N>, b: Term<N>, c: Term<N>)
    requires
        eq_is_transitive::<N>(),
        a.eq_spec(&b),
        b.eq_spec(&c),
    ensures
        a.eq_spec(&c),
    decreases a,
{
    match (a, b, c) {
        (Term::LamAbs(_, t), Term::LamAbs(_, u), Term::LamAbs(_, v)) => {
            lemma_term_eq_transitive(*t, *u, *v);
        },
        (Term::Apply(f, x), Term::Apply(g, y), Term::Apply(h, z)) => {
            lemma_term_eq_transitive(*f, *g, *h);
            lemma_term_eq_transitive(*x, *y, *z);
        },
        (Term::Delay(t), Term::Delay(u), Term::Delay(v)) => {
            lemma_term_eq_transitive(*t, *u, *v);
        },
        (Term::Force(t), Term::Force(u), Term::Force(v)) => {
            lemma_term_eq_transitive(*t, *u, *v);
        },
        _ => {},
    }
}

/// Equality of terms is an equivalence relation, where that of names is.
pub proof fn lemma_term_eq_equivalence<N: PartialEq>()
    requires
        eq_is_equivalence::<N>(),
    ensures
        eq_is_equivalence::<Term<N>>(),
{
    assert forall|x: Term<N>| #[trigger] x.eq_spec(&x) by {
        lemma_term_eq_reflexive(x);
    }
    assert forall|x: Term<N>, y: Term<N>| #[trigger] x.eq_spec(&y) implies y.eq_spec(&x) by {
        lemma_term_eq_symmetric(x, y);
    }
    assert forall|x: Term<N>, y: Term<N>, z: Term<N>| #[trigger]
        x.eq_spec(&y) && #[trigger] y.eq_spec(&z) implies x.eq_spec(&z) by {
        lemma_term_eq_transitive(x, y, z);
    }
}

/// Terms of different variants are never equal, and terms of one variant are
/// equal exactly when every payload and every child is: a change of the
/// variant, of a literal, of an operation, of a name or of a subterm breaks
/// equality.
pub proof fn lemma_term_eq_sensitive<N: PartialEq>(a: Term<N>, b: Term<N>)
    ensures
        a.eq_spec(&b) <==> match (a, b) {
            (Term::Constant(c), Term::Constant(d)) => c.eq_spec(&d),
            (Term::Builtin(x), Term::Builtin(y)) => x == y,
            (Term::Var(n), Term::Var(m)) => n.eq_spec(&m),
            (Term::LamAbs(n, t), Term::LamAbs(m, u)) => n.eq_spec(&m) && (*t).eq_spec(&*u),
            (Term::Apply(f, x), Term::Apply(g, y)) => (*f).eq_spec(&*g) && (*x).eq_spec(&*y),
            (Term::Delay(t), Term::Delay(u)) => (*t).eq_spec(&*u),
            (Term::Force(t), Term::Force(u)) => (*t).eq_spec(&*u),
            (Term::Error, Term::Error) => true,
            _ => false,
        },
{
}

/// Equal terms have the same canonical text, where equal names do.
pub proof fn lemma_term_rendering_respects_eq<N: PartialEq + Render>(a: Term<N>, b: Term<N>)
    requires
        rendering_respects_eq::<N>(),
        a.eq_spec(&b),
    ensures
        a.rendering() == b.rendering(),
    decreases a,
{
    match (a, b) {
        (Term::LamAbs(_, t), Term::LamAbs(_, u)) => {
            lemma_term_rendering_respects_eq(*t, *u);
        },
        (Term::Apply(f, x), Term::Apply(g, y)) => {
            lemma_term_rendering_respects_eq(*f, *g);
            lemma_term_rendering_respects_eq(*x, *y);
        },
        (Term::Delay(t), Term::Delay(u)) => {
            lemma_term_rendering_respects_eq(*t, *u);
        },
        (Term::Force(t), Term::Force(u)) => {
            lemma_term_rendering_respects_eq(*t, *u);
        },
        _ => {},
    }
}

/// Equality of programs is an equivalence relation, where that of names is.
pub proof fn lemma_program_eq_equivalence<N: PartialEq>()
    requires
        eq_is_equivalence::<N>(),
    ensures
        eq_is_equivalence::<Program<N>>(),
{
    assert forall|x: Program<N>| #[trigger] x.eq_spec(&x) by {
        lemma_term_eq_reflexive(x.3);
    }
    assert forall|x: Program<N>, y: Program<N>| #[trigger] x.eq_spec(&y) implies y.eq_spec(
        &x,
    ) by {
        lemma_term_eq_symmetric(x.3, y.3);
    }
    assert forall|x: Program<N>, y: Program<N>, z: Program<N>| #[trigger]
        x.eq_spec(&y) && #[trigger] y.eq_spec(&z) implies x.eq_spec(&z) by {
        lemma_term_eq_transitive(x.3, y.3, z.3);
    }
}

/// Two programs are equal exactly when the three version numbers agree and
/// the bodies are equal.
pub proof fn lemma_program_eq_sensitive<N: PartialEq>(a: Program<N>, b: Program<N>)
    ensures
        a.eq_spec(&b) <==> a.0 == b.0 && a.1 == b.1 && a.2 == b.2 && a.3.eq_spec(&b.3),
{
}

/// Equal programs have the same canonical text, where equal names do.
pub proof fn lemma_program_rendering_respects_eq<N: PartialEq + Render>(
    a: Program<N>,
    b: Program<N>,
)
    requires
        rendering_respects_eq::<N>(),
        a.eq_spec(&b),
    ensures
        a.rendering() == b.rendering(),
{
    lemma_term_rendering_respects_eq(a.3, b.3);
}

/// Equality of terms over [`Name`] is an equivalence relation.
pub proof fn lemma_named_term_eq_equivalence()
    ensures
        eq_is_equivalence::<Term<Name>>(),
{
    lemma_name_eq_equivalence();
    lemma_term_eq_equivalence::<Name>();
}

/// Equality of programs over [`Name`] is an equivalence relation.
pub proof fn lemma_named_program_eq_equivalence()
    ensures
        eq_is_equivalence::<Program<Name>>(),
{
    lemma_name_eq_equivalence();
    lemma_program_eq_equivalence::<Name>();
}

/// Equal terms over [`Name`], and equal programs over it, have the same
/// canonical text.
pub proof fn lemma_named_rendering_respects_eq()
    ensures
        rendering_respects_eq::<Term<Name>>(),
        rendering_respects_eq::<Program<Name>>(),
{
    lemma_name_rendering_respects_eq();
    assert forall|x: Term<Name>, y: Term<Name>| #[trigger] x.eq_spec(&y) implies x.rendering()
        == y.rendering() by {
        lemma_term_rendering_respects_eq(x, y);
    }
    assert forall|x: Program<Name>, y: Program<Name>| #[trigger]
        x.eq_spec(&y) implies x.rendering() == y.rendering() by {
        lemma_program_rendering_respects_eq(x, y);
    }
}

/// Rendering is deterministic: two texts rendered from one value are the
/// same text.
pub proof fn lemma_render_deterministic<T: Render>(value: &T, first: String, second: String)
    requires
        call_ensures(T::render, (value,), first),
        call_ensures(T::render, (value,), second),
    ensures
        first@ == second@,
{
}

} // verus!
