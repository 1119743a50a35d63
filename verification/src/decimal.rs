//! Decimal notation for codes.

use vstd::prelude::*;

verus! {

/// The ten decimal digits, in order of value.
pub open spec fn digits() -> Seq<char> {
    seq!['0', '1', '2', '3', '4', '5', '6', '7', '8', '9']
}

/// The decimal notation of `n`: most significant digit first, no sign, no
/// leading zero except for zero itself.
pub open spec fn decimal_digits(n: nat) -> Seq<char>
    decreases n,
{
    if n < 10 {
        seq![digits()[n as int]]
    } else {
        decimal_digits(n / 10).push(digits()[(n % 10) as int])
    }
}

/// The value of one decimal digit; a character that is no digit counts as
/// zero.
pub open spec fn digit_value(c: char) -> nat {
    if c == '1' {
        1
    } else if c == '2' {
        2
    } else if c == '3' {
        3
    } else if c == '4' {
        4
    } else if c == '5' {
        5
    } else if c == '6' {
        6
    } else if c == '7' {
        7
    } else if c == '8' {
        8
    } else if c == '9' {
        9
    } else {
        0
    }
}

/// The number that a sequence of decimal digits denotes.
pub open spec fn decimal_value(text: Seq<char>) -> nat
    decreases text.len(),
{
    if text.len() == 0 {
        0
    } else {
        10 * decimal_value(text.drop_last()) + digit_value(text.last())
    }
}

/// Decimal notation loses nothing: it is never empty, holds digits only,
/// starts with a zero only for zero itself, and reads back as the number
/// that was written.
pub proof fn decimal_notation_reads_back(n: nat)
    ensures
        decimal_digits(n).len() >= 1,
        forall|i: int|
            0 <= i < decimal_digits(n).len() ==> digits().contains(
                #[trigger] decimal_digits(n)[i],
            ),
        decimal_digits(n)[0] == '0' <==> n == 0,
        decimal_value(decimal_digits(n)) == n,
    decreases n,
{
    let text = decimal_digits(n);
    if n < 10 {
        assert(digits()[n as int] == text[0]);
        assert(text.drop_last() =~= Seq::<char>::empty());
        assert(decimal_value(text) == digit_value(text.last())) by {
            reveal_with_fuel(decimal_value, 2);
        }
    } else {
        let front = decimal_digits(n / 10);
        let last = digits()[(n % 10) as int];
        decimal_notation_reads_back(n / 10);
        assert(text.drop_last() =~= front);
        assert(text.last() == last);
        assert(text[0] == front[0]);
        assert forall|i: int| 0 <= i < text.len() implies digits().contains(#[trigger] text[i]) by {
            if i < front.len() {
                assert(text[i] == front[i]);
            } else {
                assert(digits()[(n % 10) as int] == text[i]);
            }
        }
        assert(n == 10 * (n / 10) + n % 10);
    }
}

/// The one-character string for a digit.
fn digit_str(d: u16) -> (text: &'static str)
    requires
        d < 10,
    ensures
        text@ == seq![digits()[d as int]],
{
    let text = "0123456789";
    proof {
        reveal_strlit("0123456789");
        assert(text@ =~= digits());
    }
    text.substring_ascii(d as usize, d as usize + 1)
}

/// Writes `n` in decimal notation.
pub fn decimal_string(n: u16) -> (text: String)
    ensures
        text@ == decimal_digits(n as nat),
    decreases n,
{
    if n < 10 {
        String::from_str(digit_str(n))
    } else {
        let mut text = decimal_string(n / 10);
        text.append(digit_str(n % 10));
        text
    }
}

} // verus!
