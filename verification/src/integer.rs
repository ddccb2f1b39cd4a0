//! The arbitrary-precision integers of `rug`, as far as this library reads
//! them: by their mathematical value.

use rug::Integer;
use vstd::prelude::*;

use crate::decimal::int_decimal;

verus! {

/// `rug::Integer`, an integer of arbitrary precision. Its limbs are not
/// visible here: what is known of a value is stated through
/// [`integer_value`].
#[verifier::external_type_specification]
#[verifier::external_body]
pub struct ExInteger(Integer);

/// The mathematical integer that `n` holds.
pub uninterp spec fn integer_value(n: Integer) -> int;

/// `<Integer as PartialEq>::eq` compares two integers by value.
pub assume_specification[ <Integer as PartialEq>::eq ](a: &Integer, b: &Integer) -> (equal: bool)
    ensures
        equal == (integer_value(*a) == integer_value(*b)),
;

/// `<Integer as ToString>::to_string`, which goes through the `Display` impl
/// of `Integer`: the decimal digits of the value without leading zeros,
/// behind a minus sign if the value is negative.
#[verifier::external_body]
pub(crate) fn integer_decimal(n: &Integer) -> (text: String)
    ensures
        text@ == int_decimal(integer_value(*n)),
{
    n.to_string()
}

} // verus!
