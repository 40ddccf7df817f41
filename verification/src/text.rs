//! Small verified text-building helpers: appending single characters,
//! decimal rendering of process ids and timestamps, and path joining.
use vstd::prelude::*;

verus! {

/// Relies on `String::push`: appends exactly one character to the string.
#[verifier::external_body]
pub(crate) fn push_char(s: &mut String, c: char)
    ensures
        final(s)@ == old(s)@ + seq![c],
{
    s.push(c)
}

/// The character for one decimal digit.
pub open spec fn decimal_digit(d: int) -> char
    recommends
        0 <= d < 10,
{
    ((d + 0x30) as u8) as char
}

/// The decimal rendering of a non-negative integer, most significant digit first.
pub open spec fn decimal_of(n: int) -> Seq<char>
    recommends
        n >= 0,
    decreases n,
{
    if n < 10 {
        seq![decimal_digit(n)]
    } else {
        decimal_of(n / 10) + seq![decimal_digit(n % 10)]
    }
}

/// The decimal rendering of a signed integer: a leading minus sign when negative.
pub open spec fn signed_decimal_of(n: int) -> Seq<char> {
    if n >= 0 {
        decimal_of(n)
    } else {
        seq!['-'] + decimal_of(-n)
    }
}

fn digit_char(d: u64) -> (c: char)
    requires
        d < 10,
    ensures
        c == decimal_digit(d as int),
{
    (0x30u8 + (d as u8)) as char
}

pub fn u64_to_decimal(n: u64) -> (r: String)
    ensures
        r@ == decimal_of(n as int),
    decreases n,
{
    if n < 10 {
        let mut s = String::new();
        push_char(&mut s, digit_char(n));
        s
    } else {
        let mut s = u64_to_decimal(n / 10);
        push_char(&mut s, digit_char(n % 10));
        s
    }
}

pub fn i64_to_decimal(n: i64) -> (r: String)
    ensures
        r@ == signed_decimal_of(n as int),
{
    if n >= 0 {
        u64_to_decimal(n as u64)
    } else {
        let wide: i128 = n as i128;
        let magnitude: u64 = (-wide) as u64;
        let mut s = String::new();
        push_char(&mut s, '-');
        let digits = u64_to_decimal(magnitude);
        s.append(digits.as_str());
        s
    }
}

/// Joins one path component onto a base path with the given separator.
pub fn join_path(base: &str, sep: char, component: &str) -> (r: String)
    ensures
        r@ == base@ + seq![sep] + component@,
{
    let mut s = base.to_owned();
    push_char(&mut s, sep);
    s.append(component);
    s
}

} // verus!
