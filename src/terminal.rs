//! Cursor positioning and decimal text: the primitives every renderer uses.
use vstd::prelude::*;

verus! {

/// The character of a decimal digit `d < 10`.
pub open spec fn digit_char(d: nat) -> char {
    if d == 0 {
        '0'
    } else if d == 1 {
        '1'
    } else if d == 2 {
        '2'
    } else if d == 3 {
        '3'
    } else if d == 4 {
        '4'
    } else if d == 5 {
        '5'
    } else if d == 6 {
        '6'
    } else if d == 7 {
        '7'
    } else if d == 8 {
        '8'
    } else {
        '9'
    }
}

/// Decimal digits of `n`, most significant first, without leading zeros.
pub open spec fn decimal(n: nat) -> Seq<char>
    decreases n,
{
    if n < 10 {
        seq![digit_char(n)]
    } else {
        decimal(n / 10).push(digit_char(n % 10))
    }
}

/// The escape sequence that moves the cursor to column `x`, row `y` (one-based).
pub open spec fn goto_text(x: nat, y: nat) -> Seq<char> {
    seq!['\x1b', '['] + decimal(y) + seq![';'] + decimal(x) + seq!['H']
}

/// The escape sequence that moves the cursor `n` columns to the left.
pub open spec fn left_text(n: nat) -> Seq<char> {
    seq!['\x1b', '['] + decimal(n) + seq!['D']
}

/// Relies on termion's `cursor::Goto` display: `ESC [ y ; x H`, which
/// debug-asserts that the position is not (0, 0).
#[verifier::external_body]
pub(crate) fn goto(x: u16, y: u16) -> (r: String)
    requires
        x != 0 || y != 0,
    ensures
        r@ == goto_text(x as nat, y as nat),
{
    termion::cursor::Goto(x, y).to_string()
}

/// Relies on termion's `cursor::Left` display: `ESC [ n D`.
#[verifier::external_body]
pub(crate) fn left(n: u16) -> (r: String)
    ensures
        r@ == left_text(n as nat),
{
    termion::cursor::Left(n).to_string()
}

/// Relies on std's `Display` for `u64`: plain decimal digits.
#[verifier::external_body]
pub(crate) fn decimal_string(n: u64) -> (r: String)
    ensures
        r@ == decimal(n as nat),
{
    n.to_string()
}

/// At least two digits: a leading zero below ten.
pub open spec fn two_digits(n: nat) -> Seq<char> {
    if n < 10 {
        seq!['0'] + decimal(n)
    } else {
        decimal(n)
    }
}

/// An amount of cents as dollars with two decimals, signed when negative.
pub open spec fn money_text(cents: int) -> Seq<char> {
    let magnitude = if cents < 0 {
        -cents
    } else {
        cents
    };
    let sign = if cents < 0 {
        seq!['-']
    } else {
        seq![]
    };
    sign + decimal((magnitude / 100) as nat) + seq!['.'] + two_digits((magnitude % 100) as nat)
}

/// `n` in decimal, padded with a leading zero to at least two digits.
pub fn two_digit_string(n: u64) -> (r: String)
    ensures
        r@ == two_digits(n as nat),
{
    if n < 10 {
        let mut s = String::from_str("0");
        proof {
            reveal_strlit("0");
        }
        s.append(decimal_string(n).as_str());
        s
    } else {
        decimal_string(n)
    }
}

/// A non-negative amount of `cents` written as dollars and cents.
pub fn amount_string(cents: u64) -> (r: String)
    ensures
        r@ == money_text(cents as int),
{
    let mut s = decimal_string(cents / 100);
    proof {
        reveal_strlit(".");
    }
    s.append(".");
    s.append(two_digit_string(cents % 100).as_str());
    assert(s@ =~= money_text(cents as int));
    s
}

/// `cents` written as dollars and cents, such as `-12.05`.
pub fn money_string(cents: i64) -> (r: String)
    ensures
        r@ == money_text(cents as int),
{
    if cents < 0 {
        let magnitude: u64 = ((-(cents + 1)) as u64) + 1;
        let mut s = String::from_str("-");
        proof {
            reveal_strlit("-");
        }
        s.append(amount_string(magnitude).as_str());
        assert(s@ =~= money_text(cents as int));
        s
    } else {
        amount_string(cents as u64)
    }
}

} // verus!
