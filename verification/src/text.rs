//! Character-level text helpers: decimal rendering of integers, and the
//! two conversions between Rust strings and character vectors that the
//! wire codec builds on.

use vstd::prelude::*;

verus! {

/// The decimal digit character for a value below ten.
pub open spec fn dec_digit(d: int) -> char {
    if d == 0 {
        '0'
    } else if d == 1 {
        '1'
    } else if d == 2 {
        '2'
    } else if d == 3 {
        '3'
    } else if d == 4 {
        '4'
    } else if d == 5 {
        '5'
    } else if d == 6 {
        '6'
    } else if d == 7 {
        '7'
    } else if d == 8 {
        '8'
    } else {
        '9'
    }
}

/// Decimal rendering of a non-negative integer, most significant digit
/// first, with no leading zeros (a lone zero renders as "0").
pub open spec fn dec_nat(n: nat) -> Seq<char>
    decreases n,
{
    if n < 10 {
        seq![dec_digit(n as int)]
    } else {
        dec_nat(n / 10) + seq![dec_digit((n % 10) as int)]
    }
}

/// Decimal rendering of a signed integer: a minus sign for negative
/// values, then the magnitude.
pub open spec fn dec_int(n: int) -> Seq<char> {
    if n < 0 {
        seq!['-'] + dec_nat((-n) as nat)
    } else {
        dec_nat(n as nat)
    }
}

pub(crate) fn digit_char(d: u64) -> (c: char)
    requires
        d < 10,
    ensures
        c == dec_digit(d as int),
{
    if d == 0 {
        '0'
    } else if d == 1 {
        '1'
    } else if d == 2 {
        '2'
    } else if d == 3 {
        '3'
    } else if d == 4 {
        '4'
    } else if d == 5 {
        '5'
    } else if d == 6 {
        '6'
    } else if d == 7 {
        '7'
    } else if d == 8 {
        '8'
    } else {
        '9'
    }
}

/// Renders an unsigned integer in decimal.
pub fn u64_dec_chars(n: u64) -> (r: Vec<char>)
    ensures
        r@ == dec_nat(n as nat),
    decreases n,
{
    if n < 10 {
        let mut r: Vec<char> = Vec::new();
        r.push(digit_char(n));
        assert(r@ =~= dec_nat(n as nat));
        r
    } else {
        let mut r = u64_dec_chars(n / 10);
        r.push(digit_char(n % 10));
        assert(r@ =~= dec_nat(n as nat));
        r
    }
}

/// Renders a signed integer in decimal.
pub fn i64_dec_chars(n: i64) -> (r: Vec<char>)
    ensures
        r@ == dec_int(n as int),
{
    if n >= 0 {
        u64_dec_chars(n as u64)
    } else {
        let magnitude: u64 = (-(n as i128)) as u64;
        let mut r: Vec<char> = Vec::new();
        r.push('-');
        let mut digits = u64_dec_chars(magnitude);
        r.append(&mut digits);
        assert(r@ =~= dec_int(n as int));
        r
    }
}

/// Compares two strings character by character.
pub fn str_eq(a: &str, b: &str) -> (r: bool)
    ensures
        r == (a@ == b@),
{
    let ca = str_chars(a);
    let cb = str_chars(b);
    if ca.len() != cb.len() {
        return false;
    }
    let n = ca.len();
    for i in 0..n
        invariant
            ca@ == a@,
            cb@ == b@,
            n == ca@.len(),
            ca@.len() == cb@.len(),
            forall|k: int| 0 <= k < i ==> a@[k] == b@[k],
    {
        if ca[i] != cb[i] {
            return false;
        }
    }
    proof {
        assert(a@ =~= b@);
    }
    true
}

/// Relies on str::chars: yields the characters of the string in order.
#[verifier::external_body]
pub fn str_chars(s: &str) -> (r: Vec<char>)
    ensures
        r@ == s@,
{
    s.chars().collect()
}

/// Relies on String's FromIterator impl: collects the characters in order.
#[verifier::external_body]
pub fn chars_string(v: &Vec<char>) -> (r: String)
    ensures
        r@ == v@,
{
    v.iter().collect()
}

} // verus!
