//! Text helpers: case folding, joining, and decimal numerals.

use vstd::prelude::*;

verus! {

/// What `str::to_lowercase` of the standard library returns for a text.
pub uninterp spec fn lowercase(text: Seq<char>) -> Seq<char>;

/// What `str::to_uppercase` of the standard library returns for a text.
pub uninterp spec fn uppercase(text: Seq<char>) -> Seq<char>;

/// Calls `str::to_lowercase`, which folds case by the Unicode tables of the
/// standard library.
#[verifier::external_body]
pub(crate) fn to_lowercase(text: &str) -> (lowered: String)
    ensures
        lowered@ == lowercase(text@),
{
    text.to_lowercase()
}

/// Calls `str::to_uppercase`, which folds case by the Unicode tables of the
/// standard library.
#[verifier::external_body]
pub(crate) fn to_uppercase(text: &str) -> (raised: String)
    ensures
        raised@ == uppercase(text@),
{
    text.to_uppercase()
}

/// Two texts, one after the other.
pub fn join(head: &str, tail: &str) -> (joined: String)
    ensures
        joined@ == head@ + tail@,
{
    String::from_str(head).concat(tail)
}

/// The character of a decimal digit.
pub open spec fn digit_char(digit: int) -> char {
    if digit == 0 {
        '0'
    } else if digit == 1 {
        '1'
    } else if digit == 2 {
        '2'
    } else if digit == 3 {
        '3'
    } else if digit == 4 {
        '4'
    } else if digit == 5 {
        '5'
    } else if digit == 6 {
        '6'
    } else if digit == 7 {
        '7'
    } else if digit == 8 {
        '8'
    } else {
        '9'
    }
}

/// The decimal numeral of a natural number, without leading zeros.
pub open spec fn decimal_digits(value: nat) -> Seq<char>
    decreases value,
{
    if value < 10 {
        seq![digit_char(value as int)]
    } else {
        decimal_digits(value / 10).push(digit_char((value % 10) as int))
    }
}

/// The decimal numeral of an integer: a minus sign before the digits of a
/// negative one.
pub open spec fn decimal(value: int) -> Seq<char> {
    if value < 0 {
        seq!['-'] + decimal_digits((-value) as nat)
    } else {
        decimal_digits(value as nat)
    }
}

/// The text of one decimal digit.
fn digit_text(digit: u64) -> (text: &'static str)
    requires
        digit < 10,
    ensures
        text@ == seq![digit_char(digit as int)],
{
    proof {
        reveal_strlit("0");
        reveal_strlit("1");
        reveal_strlit("2");
        reveal_strlit("3");
        reveal_strlit("4");
        reveal_strlit("5");
        reveal_strlit("6");
        reveal_strlit("7");
        reveal_strlit("8");
        reveal_strlit("9");
    }
    let text = if digit == 0 {
        "0"
    } else if digit == 1 {
        "1"
    } else if digit == 2 {
        "2"
    } else if digit == 3 {
        "3"
    } else if digit == 4 {
        "4"
    } else if digit == 5 {
        "5"
    } else if digit == 6 {
        "6"
    } else if digit == 7 {
        "7"
    } else if digit == 8 {
        "8"
    } else {
        "9"
    };
    assert(text@ =~= seq![digit_char(digit as int)]);
    text
}

/// Writes a natural number as a decimal numeral.
fn digits_text(value: u64) -> (text: String)
    ensures
        text@ == decimal_digits(value as nat),
{
    let mut text = String::from_str(digit_text(value % 10));
    let mut rest: u64 = value / 10;
    assert(decimal_digits(value as nat) =~= if rest == 0 {
        text@
    } else {
        decimal_digits(rest as nat) + text@
    });
    while rest > 0
        invariant
            decimal_digits(value as nat) == if rest == 0 {
                text@
            } else {
                decimal_digits(rest as nat) + text@
            },
        decreases rest,
    {
        let ghost before = text@;
        let ghost old_rest = rest;
        text = join(digit_text(rest % 10), text.as_str());
        rest = rest / 10;
        assert(decimal_digits(value as nat) =~= if rest == 0 {
            text@
        } else {
            decimal_digits(rest as nat) + text@
        }) by {
            let digit = seq![digit_char((old_rest % 10) as int)];
            if old_rest < 10 {
                assert(decimal_digits(old_rest as nat) =~= digit);
            } else {
                assert(decimal_digits(old_rest as nat) =~= decimal_digits(rest as nat) + digit);
                assert((decimal_digits(rest as nat) + digit) + before =~= decimal_digits(
                    rest as nat,
                ) + (digit + before));
            }
        }
    }
    text
}

/// Writes an integer as a decimal numeral.
pub fn decimal_text(value: i64) -> (text: String)
    ensures
        text@ == decimal(value as int),
{
    if value < 0 {
        let magnitude: u64 = (-(value as i128)) as u64;
        let digits = digits_text(magnitude);
        proof {
            reveal_strlit("-");
        }
        let text = join("-", digits.as_str());
        assert(text@ =~= seq!['-'] + decimal_digits((-value) as nat));
        text
    } else {
        digits_text(value as u64)
    }
}

} // verus!
