//! Decimal rendering of unsigned integers, used to pin down the exact
//! text of diagnostic messages in contracts.

use vstd::prelude::*;
use vstd::string::StringExecFns;

verus! {

/// The decimal digit character for `d` (`d < 10`).
pub open spec fn digit_char(d: nat) -> char {
    if d == 0 {
        '0'
    } else if d == 1 {
        '1'
    } else if d == 2 {
        '2'
    } else if d == 3 {
        '3'
    } else if d == 4 {
        '4'
    } else if d == 5 {
        '5'
    } else if d == 6 {
        '6'
    } else if d == 7 {
        '7'
    } else if d == 8 {
        '8'
    } else {
        '9'
    }
}

/// The usual decimal rendering of `n`: no leading zeros, a single
/// `'0'` for zero itself.
pub open spec fn dec_digits(n: nat) -> Seq<char>
    decreases n,
{
    if n < 10 {
        seq![digit_char(n)]
    } else {
        dec_digits(n / 10).push(digit_char(n % 10))
    }
}

fn digit_str(d: u64) -> (r: &'static str)
    requires
        d < 10,
    ensures
        r@ == seq![digit_char(d as nat)],
{
    let s: &'static str = if d == 0 {
        "0"
    } else if d == 1 {
        "1"
    } else if d == 2 {
        "2"
    } else if d == 3 {
        "3"
    } else if d == 4 {
        "4"
    } else if d == 5 {
        "5"
    } else if d == 6 {
        "6"
    } else if d == 7 {
        "7"
    } else if d == 8 {
        "8"
    } else {
        "9"
    };
    proof {
        reveal_strlit("0");
        reveal_strlit("1");
        reveal_strlit("2");
        reveal_strlit("3");
        reveal_strlit("4");
        reveal_strlit("5");
        reveal_strlit("6");
        reveal_strlit("7");
        reveal_strlit("8");
        reveal_strlit("9");
        assert(s@ =~= seq![digit_char(d as nat)]);
    }
    s
}

/// Render `n` in decimal.
pub fn u64_to_string(n: u64) -> (r: String)
    ensures
        r@ == dec_digits(n as nat),
    decreases n,
{
    if n < 10 {
        String::from_str(digit_str(n))
    } else {
        let prefix = u64_to_string(n / 10);
        let r = prefix.concat(digit_str(n % 10));
        proof {
            assert(r@ =~= dec_digits(n as nat));
        }
        r
    }
}

/// Render `n` in decimal.
pub fn u32_to_string(n: u32) -> (r: String)
    ensures
        r@ == dec_digits(n as nat),
{
    u64_to_string(n as u64)
}

/// Render `n` in decimal.
pub fn usize_to_string(n: usize) -> (r: String)
    ensures
        r@ == dec_digits(n as nat),
{
    u64_to_string(n as u64)
}

} // verus!
