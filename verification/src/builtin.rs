//! The catalogue of primitive operations.

use vstd::prelude::*;
use vstd::string::StringExecFns;

use crate::render::Render;

verus! {

/// A primitive operation of the language. A tag carries no payload: its
/// identity is the tag itself.
#[derive(Debug, Clone, Copy, PartialEq, Eq, Structural)]
pub enum Builtin {
    AddInteger,
    SubtractInteger,
    MultiplyInteger,
    DivideInteger,
    QuotientInteger,
    RemainderInteger,
    ModInteger,
    LessThanInteger,
    LessThanEqInteger,
    GreaterThanInteger,
    GreaterThanEqInteger,
    EqInteger,
    Concatenate,
    TakeByteString,
    DropByteString,
    SHA2,
    SHA3,
    VerifySignature,
    EqByteString,
    LtByteString,
    GtByteString,
    IfThenElse,
    CharToString,
    Append,
    Trace,
}

impl Builtin {
    /// The canonical spelling of the operation.
    pub open spec fn name_text(self) -> Seq<char> {
        match self {
            Builtin::AddInteger => "addInteger"@,
            Builtin::SubtractInteger => "subtractInteger"@,
            Builtin::MultiplyInteger => "multiplyInteger"@,
            Builtin::DivideInteger => "divideInteger"@,
            Builtin::QuotientInteger => "quotientInteger"@,
            Builtin::RemainderInteger => "remainderInteger"@,
            Builtin::ModInteger => "modInteger"@,
            Builtin::LessThanInteger => "lessThanInteger"@,
            Builtin::LessThanEqInteger => "lessThanEqualsInteger"@,
            Builtin::GreaterThanInteger => "greaterThanInteger"@,
            Builtin::GreaterThanEqInteger => "greaterThanEqualsInteger"@,
            Builtin::EqInteger => "equalsInteger"@,
            Builtin::Concatenate => "concatenate"@,
            Builtin::TakeByteString => "takeByteString"@,
            Builtin::DropByteString => "dropByteString"@,
            Builtin::SHA2 => "sha2_256"@,
            Builtin::SHA3 => "sha3_256"@,
            Builtin::VerifySignature => "verifySignature"@,
            Builtin::EqByteString => "equalsByteString"@,
            Builtin::LtByteString => "lessThanByteString"@,
            Builtin::GtByteString => "greaterThanByteString"@,
            Builtin::IfThenElse => "ifThenElse"@,
            Builtin::CharToString => "charToString"@,
            Builtin::Append => "append"@,
            Builtin::Trace => "trace"@,
        }
    }

    /// The canonical spelling of the operation, borrowed for the life of the
    /// program.
    pub fn name(&self) -> (s: &'static str)
        ensures
            s@ == self.name_text(),
    {
        match self {
            Builtin::AddInteger => "addInteger",
            Builtin::SubtractInteger => "subtractInteger",
            Builtin::MultiplyInteger => "multiplyInteger",
            Builtin::DivideInteger => "divideInteger",
            Builtin::QuotientInteger => "quotientInteger",
            Builtin::RemainderInteger => "remainderInteger",
            Builtin::ModInteger => "modInteger",
            Builtin::LessThanInteger => "lessThanInteger",
            Builtin::LessThanEqInteger => "lessThanEqualsInteger",
            Builtin::GreaterThanInteger => "greaterThanInteger",
            Builtin::GreaterThanEqInteger => "greaterThanEqualsInteger",
            Builtin::EqInteger => "equalsInteger",
            Builtin::Concatenate => "concatenate",
            Builtin::TakeByteString => "takeByteString",
            Builtin::DropByteString => "dropByteString",
            Builtin::SHA2 => "sha2_256",
            Builtin::SHA3 => "sha3_256",
            Builtin::VerifySignature => "verifySignature",
            Builtin::EqByteString => "equalsByteString",
            Builtin::LtByteString => "lessThanByteString",
            Builtin::GtByteString => "greaterThanByteString",
            Builtin::IfThenElse => "ifThenElse",
            Builtin::CharToString => "charToString",
            Builtin::Append => "append",
            Builtin::Trace => "trace",
        }
    }
}

/// Whether `c` is a lowercase letter of the Latin alphabet.
pub open spec fn is_lower_letter(c: char) -> bool {
    'a' <= c <= 'z'
}

/// Whether `c` is a letter of the Latin alphabet or a decimal digit.
pub open spec fn is_letter_or_digit(c: char) -> bool {
    ||| 'a' <= c <= 'z'
    ||| 'A' <= c <= 'Z'
    ||| '0' <= c <= '9'
}

/// Whether `text` is written in lower camel case: letters and digits only,
/// the first of them a lowercase letter.
pub open spec fn is_lower_camel_case(text: Seq<char>) -> bool {
    &&& text.len() > 0
    &&& is_lower_letter(text[0])
    &&& forall|i: int| 0 <= i < text.len() ==> is_letter_or_digit(#[trigger] text[i])
}

/// Whether `text` is written as the names of the two hash functions are:
/// lowercase letters, digits and underscores, the first of them a letter,
/// no underscore at the end and no two of them in a row.
pub open spec fn is_lower_snake_case(text: Seq<char>) -> bool {
    &&& text.len() > 0
    &&& is_lower_letter(text[0])
    &&& text.last() != '_'
    &&& forall|i: int|
        0 <= i < text.len() ==> is_lower_letter(#[trigger] text[i]) || '0' <= text[i] <= '9'
            || text[i] == '_'
    &&& forall|i: int|
        0 <= i < text.len() - 1 ==> !(#[trigger] text[i] == '_' && text[i + 1] == '_')
}

/// No name is empty.
pub proof fn lemma_name_nonempty(b: Builtin)
    ensures
        b.name_text().len() > 0,
{
    if b == Builtin::SHA2 || b == Builtin::SHA3 {
        lemma_hash_name_shape(b);
    } else {
        lemma_name_lower_camel_case(b);
    }
}

/// No two operations share a name.
pub proof fn lemma_name_unique(a: Builtin, b: Builtin)
    requires
        a != b,
    ensures
        a.name_text() != b.name_text(),
{
    reveal_strlit("addInteger");
    reveal_strlit("subtractInteger");
    reveal_strlit("multiplyInteger");
    reveal_strlit("divideInteger");
    reveal_strlit("quotientInteger");
    reveal_strlit("remainderInteger");
    reveal_strlit("modInteger");
    reveal_strlit("lessThanInteger");
    reveal_strlit("lessThanEqualsInteger");
    reveal_strlit("greaterThanInteger");
    reveal_strlit("greaterThanEqualsInteger");
    reveal_strlit("equalsInteger");
    reveal_strlit("concatenate");
    reveal_strlit("takeByteString");
    reveal_strlit("dropByteString");
    reveal_strlit("sha2_256");
    reveal_strlit("sha3_256");
    reveal_strlit("verifySignature");
    reveal_strlit("equalsByteString");
    reveal_strlit("lessThanByteString");
    reveal_strlit("greaterThanByteString");
    reveal_strlit("ifThenElse");
    reveal_strlit("charToString");
    reveal_strlit("append");
    reveal_strlit("trace");
    // The length and the characters at two places tell all the names apart.
    let first = a.name_text();
    let second = b.name_text();
    assert(first.len() != second.len() || first[0] != second[0] || first[3] != second[3]);
}

/// Every name but those of the two hash functions is written in lower camel
/// case.
pub proof fn lemma_name_lower_camel_case(b: Builtin)
    requires
        b != Builtin::SHA2,
        b != Builtin::SHA3,
    ensures
        is_lower_camel_case(b.name_text()),
{
    reveal_strlit("addInteger");
    reveal_strlit("subtractInteger");
    reveal_strlit("multiplyInteger");
    reveal_strlit("divideInteger");
    reveal_strlit("quotientInteger");
    reveal_strlit("remainderInteger");
    reveal_strlit("modInteger");
    reveal_strlit("lessThanInteger");
    reveal_strlit("lessThanEqualsInteger");
    reveal_strlit("greaterThanInteger");
    reveal_strlit("greaterThanEqualsInteger");
    reveal_strlit("equalsInteger");
    reveal_strlit("concatenate");
    reveal_strlit("takeByteString");
    reveal_strlit("dropByteString");
    reveal_strlit("sha2_256");
    reveal_strlit("sha3_256");
    reveal_strlit("verifySignature");
    reveal_strlit("equalsByteString");
    reveal_strlit("lessThanByteString");
    reveal_strlit("greaterThanByteString");
    reveal_strlit("ifThenElse");
    reveal_strlit("charToString");
    reveal_strlit("append");
    reveal_strlit("trace");
}

/// The names of the two hash functions are written in lowercase, with an
/// underscore between their parts.
pub proof fn lemma_hash_name_shape(b: Builtin)
    requires
        b == Builtin::SHA2 || b == Builtin::SHA3,
    ensures
        is_lower_snake_case(b.name_text()),
{
    reveal_strlit("sha2_256");
    reveal_strlit("sha3_256");
}

impl Render for Builtin {
    open spec fn rendering(&self) -> Seq<char> {
        self.name_text()
    }

    fn render_into(&self, out: &mut String) {
        out.append(self.name());
    }
}

} // verus!
