//! Decimal notation of integers, for messages.

use vstd::prelude::*;
use vstd::string::StringExecFns;

verus! {

/// The character of a decimal digit.
pub open spec fn digit_char(digit: int) -> char {
    if digit == 0 {
        '0'
    } else if digit == 1 {
        '1'
    } else if digit == 2 {
        '2'
    } else if digit == 3 {
        '3'
    } else if digit == 4 {
        '4'
    } else if digit == 5 {
        '5'
    } else if digit == 6 {
        '6'
    } else if digit == 7 {
        '7'
    } else if digit == 8 {
        '8'
    } else {
        '9'
    }
}

/// The decimal digits of a natural number, most significant first, without
/// leading zeros.
pub open spec fn decimal_digits(n: nat) -> Seq<char>
    decreases n,
{
    if n < 10 {
        seq![digit_char(n as int)]
    } else {
        decimal_digits(n / 10).push(digit_char((n % 10) as int))
    }
}

/// The decimal notation of an integer, with a minus sign where it is
/// negative.
pub open spec fn decimal(n: int) -> Seq<char> {
    if n < 0 {
        seq!['-'] + decimal_digits((-n) as nat)
    } else {
        decimal_digits(n as nat)
    }
}

/// The characters of digits that are given least significant first.
pub open spec fn reversed_digit_chars(digits: Seq<u8>) -> Seq<char> {
    Seq::new(digits.len(), |i: int| digit_char(digits[digits.len() - 1 - i] as int))
}

/// The text of one decimal digit.
fn digit_text(digit: u8) -> (text: &'static str)
    requires
        digit < 10,
    ensures
        text@ == seq![digit_char(digit as int)],
{
    proof {
        reveal_strlit("0");
        reveal_strlit("1");
        reveal_strlit("2");
        reveal_strlit("3");
        reveal_strlit("4");
        reveal_strlit("5");
        reveal_strlit("6");
        reveal_strlit("7");
        reveal_strlit("8");
        reveal_strlit("9");
    }
    let text = if digit == 0 {
        "0"
    } else if digit == 1 {
        "1"
    } else if digit == 2 {
        "2"
    } else if digit == 3 {
        "3"
    } else if digit == 4 {
        "4"
    } else if digit == 5 {
        "5"
    } else if digit == 6 {
        "6"
    } else if digit == 7 {
        "7"
    } else if digit == 8 {
        "8"
    } else {
        "9"
    };
    assert(text@ =~= seq![digit_char(digit as int)]);
    text
}

/// Appends the decimal notation of `n` to a text.
pub fn append_decimal(text: &mut String, n: i32)
    ensures
        final(text)@ == old(text)@ + decimal(n as int),
{
    let ghost start = text@;
    let magnitude: u32 = if n < 0 {
        proof {
            reveal_strlit("-");
        }
        text.append("-");
        (-(n as i64)) as u32
    } else {
        n as u32
    };
    let ghost signed = text@;

    // The digits of the magnitude, least significant first.
    let mut digits: Vec<u8> = Vec::new();
    let mut rest: u32 = magnitude;
    assert(decimal_digits(magnitude as nat) + reversed_digit_chars(digits@) =~= decimal_digits(
        rest as nat,
    ));
    loop
        invariant_except_break
            decimal_digits(magnitude as nat) == decimal_digits(rest as nat) + reversed_digit_chars(
                digits@,
            ),
            forall|i: int| 0 <= i < digits@.len() ==> digits@[i] < 10,
        ensures
            decimal_digits(magnitude as nat) == reversed_digit_chars(digits@),
            forall|i: int| 0 <= i < digits@.len() ==> digits@[i] < 10,
        decreases rest,
    {
        let ghost before = digits@;
        let digit = (rest % 10) as u8;
        digits.push(digit);
        assert(reversed_digit_chars(digits@) =~= seq![digit_char(digit as int)]
            + reversed_digit_chars(before));
        if rest < 10 {
            assert(decimal_digits(rest as nat) =~= seq![digit_char(digit as int)]);
            assert(decimal_digits(magnitude as nat) =~= reversed_digit_chars(digits@));
            break ;
        }
        assert(decimal_digits(rest as nat) =~= decimal_digits((rest / 10) as nat).push(
            digit_char(digit as int),
        ));
        assert(decimal_digits(magnitude as nat) =~= decimal_digits((rest / 10) as nat)
            + reversed_digit_chars(digits@));
        rest = rest / 10;
    }

    let count = digits.len();
    let mut i: usize = count;
    assert(reversed_digit_chars(digits@).take(0) =~= Seq::<char>::empty());
    while i > 0
        invariant
            i <= count,
            count == digits@.len(),
            forall|k: int| 0 <= k < digits@.len() ==> digits@[k] < 10,
            text@ == signed + reversed_digit_chars(digits@).take(count - i),
        decreases i,
    {
        i -= 1;
        text.append(digit_text(digits[i]));
        assert(reversed_digit_chars(digits@).take(count - i) =~= reversed_digit_chars(
            digits@,
        ).take(count - i - 1).push(digit_char(digits@[i as int] as int)));
    }
    assert(reversed_digit_chars(digits@).take(count as int) =~= reversed_digit_chars(digits@));
    assert(text@ =~= start + decimal(n as int));
}

} // verus!
