//! Canonical text: what every part of a program must be able to produce.

use vstd::prelude::*;
use vstd::string::StringExecFns;

verus! {

/// A value with a canonical textual form.
///
/// `rendering` is the text as a mathematical sequence of characters; the two
/// executable methods produce exactly that text.
pub trait Render {
    /// The canonical text of the value.
    spec fn rendering(&self) -> Seq<char>;

    /// Appends the canonical text of the value to `out`.
    fn render_into(&self, out: &mut String)
        ensures
            final(out)@ == old(out)@ + self.rendering(),
    ;

    /// The canonical text of the value, as a new string.
    fn render(&self) -> (text: String)
        ensures
            text@ == self.rendering(),
    {
        let mut text = String::new();
        self.render_into(&mut text);
        text
    }
}

/// A string is its own canonical text, so that a tree may carry plain
/// identifiers as names.
impl Render for String {
    open spec fn rendering(&self) -> Seq<char> {
        self@
    }

    fn render_into(&self, out: &mut String) {
        out.append(self.as_str());
    }
}

} // verus!
