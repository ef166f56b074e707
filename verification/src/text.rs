//! Decimal text of integers and the messages the ledger reports.

use vstd::prelude::*;
use vstd::string::StringExecFns;

verus! {

/// The character that writes the digit `d`, for `0 <= d <= 9`.
pub open spec fn digit(d: int) -> char {
    if d == 0 {
        '0'
    } else if d == 1 {
        '1'
    } else if d == 2 {
        '2'
    } else if d == 3 {
        '3'
    } else if d == 4 {
        '4'
    } else if d == 5 {
        '5'
    } else if d == 6 {
        '6'
    } else if d == 7 {
        '7'
    } else if d == 8 {
        '8'
    } else {
        '9'
    }
}

/// Decimal digits of a natural number, most significant first, without
/// leading zeros; zero is written as a single `0`.
pub open spec fn digits(n: nat) -> Seq<char>
    decreases n,
{
    if n < 10 {
        seq![digit(n as int)]
    } else {
        digits(n / 10).push(digit((n % 10) as int))
    }
}

/// Decimal text of an integer: a minus sign for a negative number, then
/// the digits of its magnitude.
pub open spec fn decimal(n: int) -> Seq<char> {
    if n < 0 {
        seq!['-'] + digits((-n) as nat)
    } else {
        digits(n as nat)
    }
}

/// Message and default movement reason of a successful absolute set.
pub open spec fn set_message(quantity: int) -> Seq<char> {
    "Stock set to "@ + decimal(quantity)
}

/// Message of a successful increase.
pub open spec fn increased_message(quantity: int) -> Seq<char> {
    "Stock increased by "@ + decimal(quantity)
}

/// Message of a successful decrease.
pub open spec fn decreased_message(quantity: int) -> Seq<char> {
    "Stock decreased by "@ + decimal(quantity)
}

/// Message of a decrease that asks for more than is in stock.
pub open spec fn insufficient_message(available: int, requested: int) -> Seq<char> {
    "Insufficient stock. Available: "@ + decimal(available) + ", Requested: "@ + decimal(
        requested,
    )
}

fn digit_text(d: u32) -> (t: &'static str)
    requires
        d < 10,
    ensures
        t@ == seq![digit(d as int)],
{
    proof {
        reveal_strlit("0");
        reveal_strlit("1");
        reveal_strlit("2");
        reveal_strlit("3");
        reveal_strlit("4");
        reveal_strlit("5");
        reveal_strlit("6");
        reveal_strlit("7");
        reveal_strlit("8");
        reveal_strlit("9");
    }
    let t = if d == 0 {
        "0"
    } else if d == 1 {
        "1"
    } else if d == 2 {
        "2"
    } else if d == 3 {
        "3"
    } else if d == 4 {
        "4"
    } else if d == 5 {
        "5"
    } else if d == 6 {
        "6"
    } else if d == 7 {
        "7"
    } else if d == 8 {
        "8"
    } else {
        "9"
    };
    assert(t@ =~= seq![digit(d as int)]);
    t
}

fn natural_text(n: u32) -> (s: String)
    ensures
        s@ == digits(n as nat),
    decreases n,
{
    if n < 10 {
        String::from_str(digit_text(n))
    } else {
        let mut s = natural_text(n / 10);
        s.append(digit_text(n % 10));
        assert(s@ =~= digits(n as nat));
        s
    }
}

/// Writes `n` in decimal.
pub fn decimal_text(n: i32) -> (s: String)
    ensures
        s@ == decimal(n as int),
{
    if n < 0 {
        let magnitude: u32 = (-(n as i64)) as u32;
        proof {
            reveal_strlit("-");
        }
        let s = String::from_str("-").concat(natural_text(magnitude).as_str());
        assert(s@ =~= decimal(n as int));
        s
    } else {
        natural_text(n as u32)
    }
}

/// Builds "Stock set to N".
pub fn set_text(quantity: i32) -> (s: String)
    ensures
        s@ == set_message(quantity as int),
{
    String::from_str("Stock set to ").concat(decimal_text(quantity).as_str())
}

/// Builds "Stock increased by N".
pub fn increased_text(quantity: i32) -> (s: String)
    ensures
        s@ == increased_message(quantity as int),
{
    String::from_str("Stock increased by ").concat(decimal_text(quantity).as_str())
}

/// Builds "Stock decreased by N".
pub fn decreased_text(quantity: i32) -> (s: String)
    ensures
        s@ == decreased_message(quantity as int),
{
    String::from_str("Stock decreased by ").concat(decimal_text(quantity).as_str())
}

/// Builds "Insufficient stock. Available: A, Requested: R".
pub fn insufficient_text(available: i32, requested: i32) -> (s: String)
    ensures
        s@ == insufficient_message(available as int, requested as int),
{
    let mut s = String::from_str("Insufficient stock. Available: ");
    s.append(decimal_text(available).as_str());
    s.append(", Requested: ");
    s.append(decimal_text(requested).as_str());
    s
}

} // verus!
