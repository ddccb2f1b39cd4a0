//! Literal values.

use rug::Integer;
use vstd::prelude::*;
use vstd::std_specs::cmp::PartialEqSpecImpl;
use vstd::string::StringExecFns;

use crate::decimal::{byte_list, int_decimal, push_byte_list};
use crate::integer::{integer_decimal, integer_value};
use crate::render::Render;

verus! {

/// A literal embedded in a term. The variant fixes the kind of the payload;
/// nothing converts between kinds.
#[derive(Debug)]
pub enum Const {
    /// An integer of arbitrary precision.
    IntConst(Integer),
    /// An ordered sequence of bytes.
    ByteStringConst(Vec<u8>),
    /// A Unicode string.
    StringConst(String),
    /// A single Unicode scalar value.
    CharConst(char),
    /// The unit value.
    UnitConst,
    /// A truth value.
    BoolConst(bool),
}

/// What a literal is, mathematically: its kind and its payload.
pub enum ConstView {
    Int(int),
    ByteString(Seq<u8>),
    Text(Seq<char>),
    Char(char),
    Unit,
    Bool(bool),
}

impl View for Const {
    type V = ConstView;

    open spec fn view(&self) -> ConstView {
        match self {
            Const::IntConst(n) => ConstView::Int(integer_value(*n)),
            Const::ByteStringConst(bytes) => ConstView::ByteString(bytes@),
            Const::StringConst(text) => ConstView::Text(text@),
            Const::CharConst(c) => ConstView::Char(*c),
            Const::UnitConst => ConstView::Unit,
            Const::BoolConst(b) => ConstView::Bool(*b),
        }
    }
}

/// The canonical text of a literal: `(con <kind> <payload>)`.
///
/// A text string is written between double quotes and a character between
/// single quotes, both verbatim: nothing inside them is escaped.
pub open spec fn const_text(c: ConstView) -> Seq<char> {
    match c {
        ConstView::Int(i) => "(con integer "@ + int_decimal(i) + ")"@,
        ConstView::ByteString(bytes) => "(con bytestring "@ + byte_list(bytes) + ")"@,
        ConstView::Text(text) => "(con string \""@ + text + "\")"@,
        ConstView::Char(c) => "(con char '"@.push(c) + "')"@,
        ConstView::Unit => "(con unit ())"@,
        ConstView::Bool(b) => "(con boolean "@ + (if b {
            "true"@
        } else {
            "false"@
        }) + ")"@,
    }
}

impl Const {
    /// An integer literal, from anything that converts into an `Integer`.
    /// The payload is what the conversion gave.
    pub fn integer<T: Into<Integer>>(x: T) -> (c: Const)
        ensures
            c matches Const::IntConst(n) && call_ensures(<T as Into<Integer>>::into, (x,), n)
                && c.rendering() == "(con integer "@ + int_decimal(integer_value(n)) + ")"@,
    {
        Const::IntConst(x.into())
    }

    /// A byte-string literal, from anything that converts into a vector of
    /// bytes. The payload is what the conversion gave.
    pub fn bytestring<T: Into<Vec<u8>>>(x: T) -> (c: Const)
        ensures
            c matches Const::ByteStringConst(bytes) && call_ensures(
                <T as Into<Vec<u8>>>::into,
                (x,),
                bytes,
            ) && c.rendering() == "(con bytestring "@ + byte_list(bytes@) + ")"@,
    {
        Const::ByteStringConst(x.into())
    }

    /// A text-string literal, from anything that converts into a `String`.
    /// The payload is what the conversion gave.
    pub fn string<T: Into<String>>(x: T) -> (c: Const)
        ensures
            c matches Const::StringConst(text) && call_ensures(
                <T as Into<String>>::into,
                (x,),
                text,
            ) && c.rendering() == "(con string \""@ + text@ + "\")"@,
    {
        Const::StringConst(x.into())
    }

    /// A character literal, from anything that converts into a `char`.
    /// The payload is what the conversion gave.
    pub fn char<T: Into<char>>(x: T) -> (c: Const)
        ensures
            c matches Const::CharConst(ch) && call_ensures(<T as Into<char>>::into, (x,), ch)
                && c.rendering() == "(con char '"@.push(ch) + "')"@,
    {
        Const::CharConst(x.into())
    }

    /// The unit literal.
    pub fn unit() -> (c: Const)
        ensures
            c == Const::UnitConst,
            c.rendering() == "(con unit ())"@,
    {
        Const::UnitConst
    }

    /// A boolean literal, from anything that converts into a `bool`.
    /// The payload is what the conversion gave.
    pub fn bool<T: Into<bool>>(x: T) -> (c: Const)
        ensures
            c matches Const::BoolConst(b) && call_ensures(<T as Into<bool>>::into, (x,), b)
                && c.rendering() == "(con boolean "@ + (if b {
                "true"@
            } else {
                "false"@
            }) + ")"@,
    {
        Const::BoolConst(x.into())
    }
}

impl PartialEq for Const {
    fn eq(&self, other: &Const) -> (equal: bool) {
        match (self, other) {
            (Const::IntConst(a), Const::IntConst(b)) => *a == *b,
            (Const::ByteStringConst(a), Const::ByteStringConst(b)) => {
                let equal = *a == *b;
                proof {
                    if equal {
                        assert(a@ =~= b@);
                    }
                }
                equal
            },
            (Const::StringConst(a), Const::StringConst(b)) => *a == *b,
            (Const::CharConst(a), Const::CharConst(b)) => *a == *b,
            (Const::UnitConst, Const::UnitConst) => true,
            (Const::BoolConst(a), Const::BoolConst(b)) => *a == *b,
            _ => false,
        }
    }
}

/// Two literals are equal when they are of one kind and hold the same
/// payload: integers by value, byte strings and text strings item by item.
impl PartialEqSpecImpl for Const {
    open spec fn obeys_eq_spec() -> bool {
        true
    }

    open spec fn eq_spec(&self, other: &Const) -> bool {
        self@ == other@
    }
}

impl Render for Const {
    open spec fn rendering(&self) -> Seq<char> {
        const_text(self@)
    }

    fn render_into(&self, out: &mut String) {
        match self {
            Const::IntConst(n) => {
                out.append("(con integer ");
                let digits = integer_decimal(n);
                out.append(digits.as_str());
                out.append(")");
            },
            Const::ByteStringConst(bytes) => {
                out.append("(con bytestring ");
                push_byte_list(out, bytes);
                out.append(")");
            },
            Const::StringConst(text) => {
                out.append("(con string \"");
                out.append(text.as_str());
                out.append("\")");
            },
            Const::CharConst(c) => {
                out.append("(con char '");
                out.push(*c);
                out.append("')");
            },
            Const::UnitConst => {
                out.append("(con unit ())");
            },
            Const::BoolConst(b) => {
                out.append("(con boolean ");
                if *b {
                    out.append("true");
                } else {
                    out.append("false");
                }
                out.append(")");
            },
        }
    }
}

} // verus!
