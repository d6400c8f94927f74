//! Decimal rendering of unsigned integers as ASCII bytes.

use vstd::prelude::*;

verus! {

/// The ASCII digit that stands for `d`, for `d` below ten.
pub open spec fn digit_byte(d: nat) -> u8 {
    (48 + d) as u8
}

/// The decimal representation of `n`, most significant digit first, without
/// leading zeros (`0` is the single digit `0`).
pub open spec fn decimal_digits(n: nat) -> Seq<u8>
    decreases n,
{
    if n < 10 {
        seq![digit_byte(n)]
    } else {
        decimal_digits(n / 10).push(digit_byte(n % 10))
    }
}

/// The number that a sequence of ASCII digits denotes in base ten.
pub open spec fn decimal_value(digits: Seq<u8>) -> nat
    decreases digits.len(),
{
    if digits.len() == 0 {
        0
    } else {
        (decimal_value(digits.drop_last()) * 10 + (digits.last() - 48)) as nat
    }
}

/// Whether every byte of `digits` is an ASCII digit.
pub open spec fn all_digits(digits: Seq<u8>) -> bool {
    forall|i: int| 0 <= i < digits.len() ==> 48 <= #[trigger] digits[i] <= 57
}

/// Rendering is faithful: the digits of `n` are ASCII digits, there is at
/// least one of them, a leading zero occurs only for zero itself, and reading
/// them back in base ten gives `n` again.
pub proof fn lemma_decimal_round_trip(n: nat)
    ensures
        decimal_digits(n).len() >= 1,
        all_digits(decimal_digits(n)),
        decimal_digits(n)[0] == 48 <==> n == 0,
        decimal_value(decimal_digits(n)) == n,
    decreases n,
{
    if n < 10 {
        let d = decimal_digits(n);
        assert(d.drop_last() =~= Seq::<u8>::empty());
        assert(decimal_value(d.drop_last()) == 0);
    } else {
        lemma_decimal_round_trip(n / 10);
        let head = decimal_digits(n / 10);
        let d = decimal_digits(n);
        assert(d.drop_last() =~= head);
        assert(d[0] == head[0]);
    }
}

/// Appends the decimal representation of `n` to `out`.
pub fn write_decimal(out: &mut Vec<u8>, n: usize)
    ensures
        final(out)@ == old(out)@ + decimal_digits(n as nat),
    decreases n,
{
    if n >= 10 {
        write_decimal(out, n / 10);
    }
    let digit: u8 = (n % 10) as u8;
    out.push(48u8 + digit);
    assert(final(out)@ =~= old(out)@ + decimal_digits(n as nat));
}

} // verus!
