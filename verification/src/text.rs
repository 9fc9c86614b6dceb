//! Decimal rendering of integers and small string-template helpers, used to
//! build the deterministic text fields of synthesized records.

use vstd::prelude::*;

verus! {

/// The character for one decimal digit.
pub open spec fn dec_digit(d: nat) -> char {
    if d == 0 {
        '0'
    } else if d == 1 {
        '1'
    } else if d == 2 {
        '2'
    } else if d == 3 {
        '3'
    } else if d == 4 {
        '4'
    } else if d == 5 {
        '5'
    } else if d == 6 {
        '6'
    } else if d == 7 {
        '7'
    } else if d == 8 {
        '8'
    } else {
        '9'
    }
}

/// The usual decimal rendering of `n`, most significant digit first,
/// without leading zeros (except for `n == 0` itself).
pub open spec fn dec_spec(n: nat) -> Seq<char>
    decreases n,
{
    if n < 10 {
        seq![dec_digit(n)]
    } else {
        dec_spec(n / 10).push(dec_digit(n % 10))
    }
}

fn digit_str(d: u32) -> (r: &'static str)
    requires
        d < 10,
    ensures
        r@ =~= seq![dec_digit(d as nat)],
{
    proof {
        reveal_strlit("0");
        reveal_strlit("1");
        reveal_strlit("2");
        reveal_strlit("3");
        reveal_strlit("4");
        reveal_strlit("5");
        reveal_strlit("6");
        reveal_strlit("7");
        reveal_strlit("8");
        reveal_strlit("9");
    }
    match d {
        0 => "0",
        1 => "1",
        2 => "2",
        3 => "3",
        4 => "4",
        5 => "5",
        6 => "6",
        7 => "7",
        8 => "8",
        _ => "9",
    }
}

/// Renders `n` in decimal.
pub fn u32_to_string(n: u32) -> (r: String)
    ensures
        r@ == dec_spec(n as nat),
    decreases n,
{
    if n < 10 {
        String::from_str(digit_str(n))
    } else {
        let prefix = u32_to_string(n / 10);
        prefix.concat(digit_str(n % 10))
    }
}

/// Builds `prefix` followed by the decimal rendering of `n`.
pub fn prefix_num(prefix: &str, n: u32) -> (r: String)
    ensures
        r@ == prefix@ + dec_spec(n as nat),
{
    let mut s = String::from_str(prefix);
    let mid = u32_to_string(n);
    s.append(mid.as_str());
    s
}

/// Builds `prefix`, then the decimal rendering of `n`, then `suffix`.
pub fn template(prefix: &str, n: u32, suffix: &str) -> (r: String)
    ensures
        r@ == prefix@ + dec_spec(n as nat) + suffix@,
{
    let mut s = String::from_str(prefix);
    let mid = u32_to_string(n);
    s.append(mid.as_str());
    s.append(suffix);
    s
}

} // verus!
