//! Fixed-width text pieces for the two display lines.

use vstd::prelude::*;
use vstd::string::*;
use vstd::utf8::is_ascii_chars;

verus! {

/// The character that stands for the decimal digit `d`.
pub open spec fn digit_char(d: int) -> char {
    if d == 0 {
        '0'
    } else if d == 1 {
        '1'
    } else if d == 2 {
        '2'
    } else if d == 3 {
        '3'
    } else if d == 4 {
        '4'
    } else if d == 5 {
        '5'
    } else if d == 6 {
        '6'
    } else if d == 7 {
        '7'
    } else if d == 8 {
        '8'
    } else {
        '9'
    }
}

/// The decimal numeral of `n`, most significant digit first, without padding.
pub open spec fn decimal(n: nat) -> Seq<char>
    decreases n,
{
    if n < 10 {
        seq![digit_char(n as int)]
    } else {
        decimal(n / 10).push(digit_char((n % 10) as int))
    }
}

/// The numeral of `n` padded with one leading zero when it has a single digit.
pub open spec fn two_digits(n: nat) -> Seq<char> {
    if n < 10 {
        seq!['0', digit_char(n as int)]
    } else {
        decimal(n)
    }
}

fn digit_str(d: u32) -> (s: &'static str)
    requires
        d < 10,
    ensures
        s@ == seq![digit_char(d as int)],
{
    proof {
        reveal_strlit("0");
        reveal_strlit("1");
        reveal_strlit("2");
        reveal_strlit("3");
        reveal_strlit("4");
        reveal_strlit("5");
        reveal_strlit("6");
        reveal_strlit("7");
        reveal_strlit("8");
        reveal_strlit("9");
    }
    let s: &'static str = if d == 0 {
        "0"
    } else if d == 1 {
        "1"
    } else if d == 2 {
        "2"
    } else if d == 3 {
        "3"
    } else if d == 4 {
        "4"
    } else if d == 5 {
        "5"
    } else if d == 6 {
        "6"
    } else if d == 7 {
        "7"
    } else if d == 8 {
        "8"
    } else {
        "9"
    };
    assert(s@ =~= seq![digit_char(d as int)]);
    s
}

/// Appends the decimal numeral of `n` to `out`.
pub fn push_decimal(out: &mut String, n: u32)
    ensures
        final(out)@ == old(out)@ + decimal(n as nat),
    decreases n,
{
    if n >= 10 {
        push_decimal(out, n / 10);
    }
    out.append(digit_str(n % 10));
    assert(out@ =~= old(out)@ + decimal(n as nat));
}

/// Renders `num` in decimal, with a leading zero below ten.
pub fn pad_single_digit(num: u32) -> (text: String)
    ensures
        text@ == two_digits(num as nat),
{
    let mut text: String = String::new();
    if num < 10 {
        text.append("0");
        proof {
            reveal_strlit("0");
        }
    }
    push_decimal(&mut text, num);
    assert(text@ =~= two_digits(num as nat));
    text
}

/// The three-letter upper-case abbreviation of month `month` (January is 1);
/// any other number names no month and reads `Invalid`.
pub open spec fn month_abbreviation(month: int) -> Seq<char> {
    if month == 1 {
        seq!['J', 'A', 'N']
    } else if month == 2 {
        seq!['F', 'E', 'B']
    } else if month == 3 {
        seq!['M', 'A', 'R']
    } else if month == 4 {
        seq!['A', 'P', 'R']
    } else if month == 5 {
        seq!['M', 'A', 'Y']
    } else if month == 6 {
        seq!['J', 'U', 'N']
    } else if month == 7 {
        seq!['J', 'U', 'L']
    } else if month == 8 {
        seq!['A', 'U', 'G']
    } else if month == 9 {
        seq!['S', 'E', 'P']
    } else if month == 10 {
        seq!['O', 'C', 'T']
    } else if month == 11 {
        seq!['N', 'O', 'V']
    } else if month == 12 {
        seq!['D', 'E', 'C']
    } else {
        seq!['I', 'n', 'v', 'a', 'l', 'i', 'd']
    }
}

/// Names a month by its three-letter abbreviation.
pub fn month_to_abbreviation(month: u32) -> (name: &'static str)
    ensures
        name@ == month_abbreviation(month as int),
{
    proof {
        reveal_strlit("JAN");
        reveal_strlit("FEB");
        reveal_strlit("MAR");
        reveal_strlit("APR");
        reveal_strlit("MAY");
        reveal_strlit("JUN");
        reveal_strlit("JUL");
        reveal_strlit("AUG");
        reveal_strlit("SEP");
        reveal_strlit("OCT");
        reveal_strlit("NOV");
        reveal_strlit("DEC");
        reveal_strlit("Invalid");
    }
    let name: &'static str = match month {
        1 => "JAN",
        2 => "FEB",
        3 => "MAR",
        4 => "APR",
        5 => "MAY",
        6 => "JUN",
        7 => "JUL",
        8 => "AUG",
        9 => "SEP",
        10 => "OCT",
        11 => "NOV",
        12 => "DEC",
        _ => "Invalid",
    };
    assert(name@ =~= month_abbreviation(month as int));
    name
}

/// A numeral has one digit below ten and two from ten to ninety-nine, and
/// never none; all its characters are ASCII.
pub proof fn lemma_decimal_shape(n: nat)
    ensures
        decimal(n).len() >= 1,
        n < 10 ==> decimal(n).len() == 1,
        10 <= n < 100 ==> decimal(n).len() == 2,
        n >= 100 ==> decimal(n).len() >= 3,
        is_ascii_chars(decimal(n)),
    decreases n,
{
    if n >= 10 {
        lemma_decimal_shape(n / 10);
    }
}

/// A padded numeral has exactly two characters up to ninety-nine, and all
/// its characters are ASCII.
pub proof fn lemma_two_digits_shape(n: nat)
    ensures
        two_digits(n).len() >= 2,
        n < 100 ==> two_digits(n).len() == 2,
        is_ascii_chars(two_digits(n)),
{
    lemma_decimal_shape(n);
}

/// The name of a month has three characters; all characters of any name
/// that comes back are ASCII.
pub proof fn lemma_month_shape(month: int)
    ensures
        1 <= month <= 12 ==> month_abbreviation(month).len() == 3,
        is_ascii_chars(month_abbreviation(month)),
{
}

} // verus!
