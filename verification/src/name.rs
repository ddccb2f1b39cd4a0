//! Variable names.

use vstd::prelude::*;
use vstd::std_specs::cmp::PartialEqSpecImpl;
use vstd::string::StringExecFns;

use crate::decimal::{nat_decimal, push_nat_decimal};
use crate::render::Render;

verus! {

/// A variable: the identifier as written, and a number that tells apart
/// binding occurrences that share an identifier.
#[derive(Debug)]
pub struct Name {
    pub id: String,
    pub uniq: u32,
}

/// What a name is, mathematically.
pub struct NameView {
    pub id: Seq<char>,
    pub uniq: nat,
}

impl View for Name {
    type V = NameView;

    open spec fn view(&self) -> NameView {
        NameView { id: self.id@, uniq: self.uniq as nat }
    }
}

/// The canonical text of a name: the identifier, an underscore, and the
/// number in decimal.
pub open spec fn name_text(n: NameView) -> Seq<char> {
    n.id + "_"@ + nat_decimal(n.uniq)
}

impl PartialEq for Name {
    fn eq(&self, other: &Name) -> (equal: bool) {
        self.id == other.id && self.uniq == other.uniq
    }
}

/// Two names are equal when both the identifier and the number agree.
impl PartialEqSpecImpl for Name {
    open spec fn obeys_eq_spec() -> bool {
        true
    }

    open spec fn eq_spec(&self, other: &Name) -> bool {
        self@ == other@
    }
}

impl Render for Name {
    open spec fn rendering(&self) -> Seq<char> {
        name_text(self@)
    }

    fn render_into(&self, out: &mut String) {
        out.append(self.id.as_str());
        out.append("_");
        push_nat_decimal(out, self.uniq as u64);
    }
}

} // verus!
