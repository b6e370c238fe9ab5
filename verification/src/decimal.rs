use vstd::prelude::*;
use vstd::string::StringExecFns;

verus! {

/// The character that stands for one decimal digit.
pub open spec fn digit_char(d: int) -> char {
    if d == 0 {
        '0'
    } else if d == 1 {
        '1'
    } else if d == 2 {
        '2'
    } else if d == 3 {
        '3'
    } else if d == 4 {
        '4'
    } else if d == 5 {
        '5'
    } else if d == 6 {
        '6'
    } else if d == 7 {
        '7'
    } else if d == 8 {
        '8'
    } else {
        '9'
    }
}

/// The decimal digits of a natural number, without leading zeros.
pub open spec fn spec_digits(n: nat) -> Seq<char>
    decreases n,
{
    if n < 10 {
        seq![digit_char(n as int)]
    } else {
        spec_digits(n / 10).push(digit_char((n % 10) as int))
    }
}

/// A count of hundredths written as a decimal number with two digits after
/// the point, such as `8.50`, `0.07` or `-12.25`.
pub open spec fn spec_hundredths_text(h: int) -> Seq<char> {
    let size = if h < 0 { -h } else { h };
    let sign = if h < 0 { seq!['-'] } else { Seq::<char>::empty() };
    sign + spec_digits((size / 100) as nat) + seq![
        '.',
        digit_char(size % 100 / 10),
        digit_char(size % 10),
    ]
}

/// One decimal digit as text.
pub fn digit_text(d: u8) -> (text: &'static str)
    requires
        d < 10,
    ensures
        text@ == seq![digit_char(d as int)],
{
    proof {
        reveal_strlit("0");
        reveal_strlit("1");
        reveal_strlit("2");
        reveal_strlit("3");
        reveal_strlit("4");
        reveal_strlit("5");
        reveal_strlit("6");
        reveal_strlit("7");
        reveal_strlit("8");
        reveal_strlit("9");
    }
    let text = if d == 0 {
        "0"
    } else if d == 1 {
        "1"
    } else if d == 2 {
        "2"
    } else if d == 3 {
        "3"
    } else if d == 4 {
        "4"
    } else if d == 5 {
        "5"
    } else if d == 6 {
        "6"
    } else if d == 7 {
        "7"
    } else if d == 8 {
        "8"
    } else {
        "9"
    };
    assert(text@ =~= seq![digit_char(d as int)]);
    text
}

/// The decimal digits of `n`, without leading zeros.
pub fn digits_text(n: u128) -> (text: String)
    ensures
        text@ == spec_digits(n as nat),
    decreases n,
{
    if n < 10 {
        String::from_str(digit_text(n as u8))
    } else {
        let mut text = digits_text(n / 10);
        text.append(digit_text((n % 10) as u8));
        assert(text@ =~= spec_digits(n as nat));
        text
    }
}

/// A count of hundredths as a decimal number with two digits after the point.
pub fn hundredths_text(h: i128) -> (text: String)
    ensures
        text@ == spec_hundredths_text(h as int),
{
    proof {
        reveal_strlit("-");
        reveal_strlit("");
        reveal_strlit(".");
    }
    let size: u128 = if h < 0 { ((-(h + 1)) as u128) + 1 } else { h as u128 };
    let mut text = String::from_str(if h < 0 { "-" } else { "" });
    let whole = digits_text(size / 100);
    text.append(whole.as_str());
    text.append(".");
    text.append(digit_text((size % 100 / 10) as u8));
    text.append(digit_text((size % 10) as u8));
    assert(text@ =~= spec_hundredths_text(h as int));
    text
}

} // verus!
