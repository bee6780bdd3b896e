//! The sum of two numbers, written out as text.

use vstd::prelude::*;
use vstd::string::StringExecFns;

verus! {

/// The character that stands for the digit `d`.
pub open spec fn digit(d: nat) -> char
    recommends
        d < 10,
{
    if d == 0 {
        '0'
    } else if d == 1 {
        '1'
    } else if d == 2 {
        '2'
    } else if d == 3 {
        '3'
    } else if d == 4 {
        '4'
    } else if d == 5 {
        '5'
    } else if d == 6 {
        '6'
    } else if d == 7 {
        '7'
    } else if d == 8 {
        '8'
    } else {
        '9'
    }
}

/// The number `n` in decimal digits, the highest first and with no leading
/// zero; zero is the one digit `0`.
pub open spec fn decimal(n: nat) -> Seq<char>
    decreases n,
{
    if n < 10 {
        seq![digit(n)]
    } else {
        decimal(n / 10).push(digit(n % 10))
    }
}

/// The line that answers a request for the sum of `a` and `b`.
pub open spec fn sum_text(a: nat, b: nat) -> Seq<char> {
    decimal(a) + seq![' ', '+', ' '] + decimal(b) + seq![' ', '=', ' '] + decimal(a + b)
}

fn digit_text(d: u64) -> (text: &'static str)
    requires
        d < 10,
    ensures
        text@ == seq![digit(d as nat)],
{
    proof {
        reveal_strlit("0");
        reveal_strlit("1");
        reveal_strlit("2");
        reveal_strlit("3");
        reveal_strlit("4");
        reveal_strlit("5");
        reveal_strlit("6");
        reveal_strlit("7");
        reveal_strlit("8");
        reveal_strlit("9");
    }
    let text = if d == 0 {
        "0"
    } else if d == 1 {
        "1"
    } else if d == 2 {
        "2"
    } else if d == 3 {
        "3"
    } else if d == 4 {
        "4"
    } else if d == 5 {
        "5"
    } else if d == 6 {
        "6"
    } else if d == 7 {
        "7"
    } else if d == 8 {
        "8"
    } else {
        "9"
    };
    text
}

/// Writes `n` in decimal digits.
pub fn to_decimal(n: u64) -> (text: String)
    ensures
        text@ == decimal(n as nat),
    decreases n,
{
    if n < 10 {
        String::from_str(digit_text(n))
    } else {
        let mut text = to_decimal(n / 10);
        text.append(digit_text(n % 10));
        text
    }
}

/// Adds `a` and `b` and answers with the two numbers and their sum, as in
/// `3 + 4 = 7`. The sum is the true one for every pair: it is computed in a
/// wider type than its terms.
pub fn sum(a: u32, b: u32) -> (text: String)
    ensures
        text@ == sum_text(a as nat, b as nat),
{
    let total: u64 = a as u64 + b as u64;
    let second = to_decimal(b as u64);
    let third = to_decimal(total);
    let mut text = to_decimal(a as u64);
    proof {
        reveal_strlit(" + ");
        reveal_strlit(" = ");
    }
    text.append(" + ");
    text.append(second.as_str());
    text.append(" = ");
    text.append(third.as_str());
    text
}

} // verus!
