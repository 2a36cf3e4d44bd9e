//! Decimal text for the numbers that appear in task definitions and messages.

use vstd::prelude::*;

verus! {

/// The character of one decimal digit.
pub open spec fn digit_char(d: int) -> char {
    if d == 0 {
        '0'
    } else if d == 1 {
        '1'
    } else if d == 2 {
        '2'
    } else if d == 3 {
        '3'
    } else if d == 4 {
        '4'
    } else if d == 5 {
        '5'
    } else if d == 6 {
        '6'
    } else if d == 7 {
        '7'
    } else if d == 8 {
        '8'
    } else {
        '9'
    }
}

/// The decimal numeral of `n`, without sign or leading zeros.
pub open spec fn decimal(n: nat) -> Seq<char>
    decreases n,
{
    if n < 10 {
        seq![digit_char(n as int)]
    } else {
        decimal(n / 10).push(digit_char((n % 10) as int))
    }
}

/// The decimal numeral of `n`, with a minus sign where `n` is negative.
pub open spec fn signed_decimal(n: int) -> Seq<char> {
    if n < 0 {
        "-"@ + decimal((-n) as nat)
    } else {
        decimal(n as nat)
    }
}

/// The texts of a sequence of strings.
pub open spec fn texts(lines: Seq<String>) -> Seq<Seq<char>> {
    lines.map_values(|line: String| line@)
}

/// The text of a single digit.
fn digit_text(d: u64) -> (text: &'static str)
    requires
        d < 10,
    ensures
        text@ == seq![digit_char(d as int)],
{
    proof {
        reveal_strlit("0");
        reveal_strlit("1");
        reveal_strlit("2");
        reveal_strlit("3");
        reveal_strlit("4");
        reveal_strlit("5");
        reveal_strlit("6");
        reveal_strlit("7");
        reveal_strlit("8");
        reveal_strlit("9");
    }
    let text: &'static str = if d == 0 {
        "0"
    } else if d == 1 {
        "1"
    } else if d == 2 {
        "2"
    } else if d == 3 {
        "3"
    } else if d == 4 {
        "4"
    } else if d == 5 {
        "5"
    } else if d == 6 {
        "6"
    } else if d == 7 {
        "7"
    } else if d == 8 {
        "8"
    } else {
        "9"
    };
    assert(text@ =~= seq![digit_char(d as int)]);
    text
}

/// Writes `n` as a decimal numeral.
pub fn format_decimal(n: u64) -> (text: String)
    ensures
        text@ == decimal(n as nat),
    decreases n,
{
    if n < 10 {
        String::from_str(digit_text(n))
    } else {
        let mut text = format_decimal(n / 10);
        text.append(digit_text(n % 10));
        assert(text@ =~= decimal((n / 10) as nat).push(digit_char((n % 10) as int)));
        text
    }
}

/// Writes `n` as a decimal numeral with its sign.
pub fn format_signed(n: i64) -> (text: String)
    ensures
        text@ == signed_decimal(n as int),
{
    if n < 0 {
        let magnitude: u64 = (-(n as i128)) as u64;
        let number: String = format_decimal(magnitude);
        let mut text: String = String::from_str("-");
        text.append(number.as_str());
        text
    } else {
        format_decimal(n as u64)
    }
}

} // verus!
