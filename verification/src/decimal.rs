//! Decimal notation for integers, and the list notation for byte strings.

use vstd::prelude::*;

verus! {

/// The character of the digit `d`, for `d` from 0 to 9.
pub open spec fn digit_char(d: int) -> char {
    ('0' as int + d) as char
}

/// The decimal digits of `n`, most significant first, without leading zeros.
/// Zero is written with the single digit `0`.
pub open spec fn nat_decimal(n: nat) -> Seq<char>
    decreases n,
{
    if n < 10 {
        seq![digit_char(n as int)]
    } else {
        nat_decimal(n / 10).push(digit_char((n % 10) as int))
    }
}

/// The decimal notation of `i`: its digits, behind a minus sign if and only
/// if `i` is negative.
pub open spec fn int_decimal(i: int) -> Seq<char> {
    if i < 0 {
        seq!['-'] + nat_decimal((-i) as nat)
    } else {
        nat_decimal(i as nat)
    }
}

/// Whether `c` is a decimal digit.
pub open spec fn is_digit(c: char) -> bool {
    '0' <= c <= '9'
}

/// The number that a sequence of decimal digits denotes, most significant
/// digit first.
pub open spec fn decimal_value(digits: Seq<char>) -> nat
    decreases digits.len(),
{
    if digits.len() == 0 {
        0
    } else {
        (decimal_value(digits.drop_last()) * 10 + (digits.last() as int - '0' as int)) as nat
    }
}

/// The decimal digits of a number are at least one, are digits all, start
/// with `0` for zero only, and denote the number.
pub proof fn lemma_nat_decimal_shape(n: nat)
    ensures
        nat_decimal(n).len() >= 1,
        forall|k: int| 0 <= k < nat_decimal(n).len() ==> is_digit(#[trigger] nat_decimal(n)[k]),
        nat_decimal(n)[0] == '0' <==> n == 0,
        decimal_value(nat_decimal(n)) == n,
    decreases n,
{
    if n < 10 {
        let digits = nat_decimal(n);
        assert(digits.drop_last().len() == 0);
        assert(decimal_value(digits.drop_last()) == 0);
    } else {
        let head = nat_decimal(n / 10);
        lemma_nat_decimal_shape(n / 10);
        assert(nat_decimal(n) == head.push(digit_char((n % 10) as int)));
        assert(nat_decimal(n).drop_last() == head);
        assert(nat_decimal(n)[0] == head[0]);
    }
}

/// Different numbers have different digits.
pub proof fn lemma_nat_decimal_injective(a: nat, b: nat)
    requires
        nat_decimal(a) == nat_decimal(b),
    ensures
        a == b,
{
    lemma_nat_decimal_shape(a);
    lemma_nat_decimal_shape(b);
}

/// The decimal notation of an integer starts with a minus sign exactly when
/// the integer is negative, and nothing but digits follows.
pub proof fn lemma_int_decimal_sign(i: int)
    ensures
        int_decimal(i)[0] == '-' <==> i < 0,
        i < 0 ==> int_decimal(i).subrange(1, int_decimal(i).len() as int) == nat_decimal(
            (-i) as nat,
        ),
        i >= 0 ==> int_decimal(i) == nat_decimal(i as nat),
{
    if i < 0 {
        let digits = nat_decimal((-i) as nat);
        assert(int_decimal(i).subrange(1, int_decimal(i).len() as int) == digits);
    } else {
        lemma_nat_decimal_shape(i as nat);
    }
}

/// Different integers have different decimal notations.
pub proof fn lemma_int_decimal_injective(a: int, b: int)
    requires
        int_decimal(a) == int_decimal(b),
    ensures
        a == b,
{
    lemma_int_decimal_sign(a);
    lemma_int_decimal_sign(b);
    if a < 0 {
        lemma_nat_decimal_injective((-a) as nat, (-b) as nat);
    } else {
        lemma_nat_decimal_injective(a as nat, b as nat);
    }
}

/// `String::push` appends one character to the end of the string.
pub assume_specification[ String::push ](s: &mut String, c: char)
    ensures
        final(s)@ == old(s)@.push(c),
;

/// Appends the decimal digits of `n` to `out`.
pub fn push_nat_decimal(out: &mut String, n: u64)
    ensures
        final(out)@ == old(out)@ + nat_decimal(n as nat),
    decreases n,
{
    if n >= 10 {
        push_nat_decimal(out, n / 10);
    }
    let d: u8 = (n % 10) as u8;
    out.push((48u8 + d) as char);
}

/// Appends the decimal notation of `i` to `out`.
pub fn push_int_decimal(out: &mut String, i: i64)
    ensures
        final(out)@ == old(out)@ + int_decimal(i as int),
{
    if i < 0 {
        out.push('-');
        // The magnitude of the least `i64` does not fit an `i64`, but it fits a `u64`.
        let magnitude: u64 = if i == i64::MIN {
            9223372036854775808u64
        } else {
            (-i) as u64
        };
        push_nat_decimal(out, magnitude);
    } else {
        push_nat_decimal(out, i as u64);
    }
}

/// The items of the list notation of a byte string: each byte in decimal,
/// in order, with a comma and a space between neighbours.
pub open spec fn byte_list_items(bytes: Seq<u8>) -> Seq<char>
    decreases bytes.len(),
{
    if bytes.len() == 0 {
        Seq::empty()
    } else if bytes.len() == 1 {
        nat_decimal(bytes[0] as nat)
    } else {
        byte_list_items(bytes.drop_last()) + seq![',', ' '] + nat_decimal(bytes.last() as nat)
    }
}

/// The list notation of a byte string: its items between square brackets.
/// The empty byte string is written `[]`.
pub open spec fn byte_list(bytes: Seq<u8>) -> Seq<char> {
    seq!['['] + byte_list_items(bytes) + seq![']']
}

/// Appends the list notation of `bytes` to `out`.
pub fn push_byte_list(out: &mut String, bytes: &Vec<u8>)
    ensures
        final(out)@ == old(out)@ + byte_list(bytes@),
{
    let ghost before = out@;
    out.push('[');
    let mut i: usize = 0;
    while i < bytes.len()
        invariant
            i <= bytes.len(),
            out@ == before + seq!['['] + byte_list_items(bytes@.take(i as int)),
        decreases bytes.len() - i,
    {
        let ghost so_far = out@;
        if i > 0 {
            out.push(',');
            out.push(' ');
        }
        push_nat_decimal(out, bytes[i] as u64);
        proof {
            let head = bytes@.take(i as int);
            let next = bytes@.take(i + 1);
            assert(next.drop_last() == head);
            assert(next.last() == bytes@[i as int]);
            if i > 0 {
                assert(so_far.push(',').push(' ') == so_far + seq![',', ' ']);
            } else {
                assert(byte_list_items(head) == Seq::<char>::empty());
            }
        }
        i += 1;
    }
    out.push(']');
    proof {
        assert(bytes@.take(bytes@.len() as int) == bytes@);
    }
}

} // verus!
