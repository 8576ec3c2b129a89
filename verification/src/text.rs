//! Decimal rendering of the numbers that appear in a listing.

use vstd::prelude::*;
use vstd::string::*;

verus! {

/// The character that stands for a single decimal digit.
pub open spec fn digit_char(d: int) -> char {
    if d == 0 {
        '0'
    } else if d == 1 {
        '1'
    } else if d == 2 {
        '2'
    } else if d == 3 {
        '3'
    } else if d == 4 {
        '4'
    } else if d == 5 {
        '5'
    } else if d == 6 {
        '6'
    } else if d == 7 {
        '7'
    } else if d == 8 {
        '8'
    } else {
        '9'
    }
}

/// The decimal digits of a natural number, most significant first and
/// without leading zeros; zero is the single digit `0`.
pub open spec fn digits(n: nat) -> Seq<char>
    decreases n,
{
    if n < 10 {
        seq![digit_char(n as int)]
    } else {
        digits(n / 10).push(digit_char((n % 10) as int))
    }
}

/// The decimal text of an integer: a minus sign in front of the digits of a
/// negative number, the bare digits otherwise.
pub open spec fn decimal(v: int) -> Seq<char> {
    if v < 0 {
        seq!['-'] + digits((-v) as nat)
    } else {
        digits(v as nat)
    }
}

/// Whether a character is one of the ten decimal digits.
pub open spec fn is_digit(c: char) -> bool {
    exists|d: int| 0 <= d < 10 && c == #[trigger] digit_char(d)
}

/// The digits of a number are at least one, and each of them is a decimal
/// digit.
pub proof fn lemma_digits_are_digits(n: nat)
    ensures
        digits(n).len() >= 1,
        forall|i: int| 0 <= i < digits(n).len() ==> is_digit(#[trigger] digits(n)[i]),
    decreases n,
{
    if n >= 10 {
        lemma_digits_are_digits(n / 10);
    }
}

/// Minus one in decimal is a minus sign and the digit one.
pub proof fn lemma_decimal_of_minus_one()
    ensures
        decimal(-1) == "-1"@,
        digits(1) == "1"@,
{
    reveal_strlit("-1");
    reveal_strlit("1");
}

/// Appends one decimal digit to `out`.
fn push_digit(out: &mut String, d: u64)
    requires
        d < 10,
    ensures
        final(out)@ == old(out)@.push(digit_char(d as int)),
{
    proof {
        reveal_strlit("0");
        reveal_strlit("1");
        reveal_strlit("2");
        reveal_strlit("3");
        reveal_strlit("4");
        reveal_strlit("5");
        reveal_strlit("6");
        reveal_strlit("7");
        reveal_strlit("8");
        reveal_strlit("9");
    }
    let glyph = if d == 0 {
        "0"
    } else if d == 1 {
        "1"
    } else if d == 2 {
        "2"
    } else if d == 3 {
        "3"
    } else if d == 4 {
        "4"
    } else if d == 5 {
        "5"
    } else if d == 6 {
        "6"
    } else if d == 7 {
        "7"
    } else if d == 8 {
        "8"
    } else {
        "9"
    };
    out.append(glyph);
}

/// Appends the decimal digits of `n` to `out`.
pub fn push_digits(out: &mut String, n: u64)
    ensures
        final(out)@ == old(out)@ + digits(n as nat),
    decreases n,
{
    if n >= 10 {
        push_digits(out, n / 10);
    }
    push_digit(out, n % 10);
}

/// Appends the decimal text of `v` to `out`.
pub fn push_decimal(out: &mut String, v: i32)
    ensures
        final(out)@ == old(out)@ + decimal(v as int),
{
    if v < 0 {
        proof {
            reveal_strlit("-");
        }
        out.append("-");
        let magnitude: i64 = -(v as i64);
        push_digits(out, magnitude as u64);
    } else {
        push_digits(out, v as u64);
    }
}

/// Renders `v` in decimal.
pub fn to_decimal(v: i32) -> (text: String)
    ensures
        text@ == decimal(v as int),
{
    let mut text = String::new();
    push_decimal(&mut text, v);
    text
}

} // verus!
