//! Numbers as text, for register dumps.
use vstd::prelude::*;

verus! {

/// The lower-case hexadecimal digit of value `d` (below 16).
pub open spec fn hex_digit(d: nat) -> char {
    seq!['0', '1', '2', '3', '4', '5', '6', '7', '8', '9', 'a', 'b', 'c', 'd', 'e', 'f'][d as int]
}

/// The lower-case hexadecimal digits of `n`, without leading zeros.
pub open spec fn hex_digits(n: nat) -> Seq<char>
    decreases n,
{
    if n < 16 {
        seq![hex_digit(n)]
    } else {
        hex_digits(n / 16).push(hex_digit(n % 16))
    }
}

/// `n` in hexadecimal with the `0x` prefix.
pub open spec fn hex_text(n: nat) -> Seq<char> {
    seq!['0', 'x'] + hex_digits(n)
}

/// The decimal digits of `n`, without leading zeros.
pub open spec fn dec_digits(n: nat) -> Seq<char>
    decreases n,
{
    if n < 10 {
        seq![hex_digit(n)]
    } else {
        dec_digits(n / 10).push(hex_digit(n % 10))
    }
}

/// Relies on std's `LowerHex` with the alternate flag (`{:#x}`): `0x`, then
/// the digits in lower case without leading zeros.
#[verifier::external_body]
pub(crate) fn format_hex(v: u64) -> (r: String)
    ensures
        r@ == hex_text(v as nat),
{
    format!("{:#x}", v)
}

/// Relies on std's `Display` for `usize`: the decimal digits without leading
/// zeros.
#[verifier::external_body]
pub(crate) fn format_dec(v: usize) -> (r: String)
    ensures
        r@ == dec_digits(v as nat),
{
    format!("{}", v)
}

/// Relies on `String::push_str`: appends `t` at the end of `s`.
#[verifier::external_body]
pub(crate) fn push_text(s: &mut String, t: &str)
    ensures
        final(s)@ == old(s)@ + t@,
{
    s.push_str(t)
}

} // verus!
