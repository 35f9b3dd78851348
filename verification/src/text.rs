//! Building the human-readable keyword detection description, including a
//! verified decimal rendering of the keyword index.

use vstd::prelude::*;

verus! {

/// The character for one decimal digit.
pub open spec fn digit_char(d: nat) -> char {
    if d == 0 {
        '0'
    } else if d == 1 {
        '1'
    } else if d == 2 {
        '2'
    } else if d == 3 {
        '3'
    } else if d == 4 {
        '4'
    } else if d == 5 {
        '5'
    } else if d == 6 {
        '6'
    } else if d == 7 {
        '7'
    } else if d == 8 {
        '8'
    } else {
        '9'
    }
}

/// The decimal rendering of a natural number, most significant digit first,
/// with no leading zeros (a single `0` for zero itself).
pub open spec fn decimal_digits(n: nat) -> Seq<char>
    decreases n,
{
    if n < 10 {
        seq![digit_char(n)]
    } else {
        decimal_digits(n / 10).push(digit_char(n % 10))
    }
}

/// The description stored for a detection of keyword model `index`.
pub open spec fn keyword_description(index: nat) -> Seq<char> {
    "Keyword "@ + decimal_digits(index) + " detected"@
}

fn append_digit(s: &mut String, d: u32)
    requires
        d < 10,
    ensures
        final(s)@ == old(s)@.push(digit_char(d as nat)),
{
    let piece: &str = if d == 0 {
        "0"
    } else if d == 1 {
        "1"
    } else if d == 2 {
        "2"
    } else if d == 3 {
        "3"
    } else if d == 4 {
        "4"
    } else if d == 5 {
        "5"
    } else if d == 6 {
        "6"
    } else if d == 7 {
        "7"
    } else if d == 8 {
        "8"
    } else {
        "9"
    };
    proof {
        reveal_strlit("0");
        reveal_strlit("1");
        reveal_strlit("2");
        reveal_strlit("3");
        reveal_strlit("4");
        reveal_strlit("5");
        reveal_strlit("6");
        reveal_strlit("7");
        reveal_strlit("8");
        reveal_strlit("9");
    }
    assert(piece@ =~= seq![digit_char(d as nat)]);
    s.append(piece);
    assert(s@ =~= old(s)@.push(digit_char(d as nat)));
}

fn append_decimal(s: &mut String, n: u32)
    ensures
        final(s)@ == old(s)@ + decimal_digits(n as nat),
    decreases n,
{
    if n < 10 {
        append_digit(s, n);
        assert(s@ =~= old(s)@ + decimal_digits(n as nat));
    } else {
        append_decimal(s, n / 10);
        append_digit(s, n % 10);
        assert((n / 10) as nat == n as nat / 10);
        assert((n % 10) as nat == n as nat % 10);
        assert(s@ =~= old(s)@ + decimal_digits(n as nat));
    }
}

/// The description of a non-negative keyword index, e.g. index 3 becomes
/// `Keyword 3 detected`.
pub fn describe_keyword(index: i32) -> (r: String)
    requires
        index >= 0,
    ensures
        r@ == keyword_description(index as nat),
{
    let mut s = String::from_str("Keyword ");
    append_decimal(&mut s, index as u32);
    s.append(" detected");
    assert(s@ =~= keyword_description(index as nat));
    s
}

} // verus!
