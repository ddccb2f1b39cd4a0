//! Programs: a term under a version tag.

use vstd::prelude::*;
use vstd::std_specs::cmp::PartialEqSpec;
use vstd::string::StringExecFns;

use crate::decimal::{int_decimal, push_int_decimal};
use crate::render::Render;
use crate::term::{term_eq, Term};

verus! {

/// A program: the major, minor and patch numbers of the language version it
/// is written against, and its body. The numbers are carried and rendered as
/// they are; nothing here interprets them.
#[derive(Debug)]
pub struct Program<N>(pub i32, pub i32, pub i32, pub Term<N>);

/// The canonical text of a version tag: the three numbers in decimal, with a
/// dot between neighbours.
pub open spec fn version_text(major: int, minor: int, patch: int) -> Seq<char> {
    int_decimal(major) + "."@ + int_decimal(minor) + "."@ + int_decimal(patch)
}

impl<N: Render> Render for Program<N> {
    /// The version on the opening line, the body from the next line on, the
    /// closing parenthesis on a line of its own, and a final line break.
    open spec fn rendering(&self) -> Seq<char> {
        "(program "@ + version_text(self.0 as int, self.1 as int, self.2 as int) + "\n"@
            + self.3.rendering() + "\n)\n"@
    }

    fn render_into(&self, out: &mut String) {
        out.append("(program ");
        push_int_decimal(out, self.0 as i64);
        out.append(".");
        push_int_decimal(out, self.1 as i64);
        out.append(".");
        push_int_decimal(out, self.2 as i64);
        out.append("\n");
        self.3.render_into(out);
        out.append("\n)\n");
    }
}

impl<N: PartialEq> PartialEq for Program<N> {
    fn eq(&self, other: &Program<N>) -> (equal: bool) {
        self.0 == other.0 && self.1 == other.1 && self.2 == other.2 && self.3 == other.3
    }
}

/// Two programs are equal when the three version numbers agree and the
/// bodies are equal terms.
impl<N: PartialEq> vstd::std_specs::cmp::PartialEqSpecImpl for Program<N> {
    open spec fn obeys_eq_spec() -> bool {
        N::obeys_eq_spec()
    }

    open spec fn eq_spec(&self, other: &Program<N>) -> bool {
        &&& self.0 == other.0
        &&& self.1 == other.1
        &&& self.2 == other.2
        &&& term_eq(self.3, other.3)
    }
}

} // verus!
