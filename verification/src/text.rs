//! Small string helpers: appending, comparison and decimal rendering.

use vstd::prelude::*;

verus! {

/// Relies on `alloc::string::String::push_str`: it appends the given string
/// slice onto the end of the string.
#[verifier::external_body]
pub fn push_str(s: &mut String, t: &str)
    ensures
        final(s)@ == old(s)@ + t@,
{
    s.push_str(t);
}

/// String-slice equality, decided through owned strings.
pub fn str_eq(a: &str, b: &str) -> (r: bool)
    ensures
        r == (a@ == b@),
{
    let sa = a.to_owned();
    let sb = b.to_owned();
    sa == sb
}

/// The character for a single decimal digit.
pub open spec fn digit_char(d: nat) -> char {
    if d == 0 {
        '0'
    } else if d == 1 {
        '1'
    } else if d == 2 {
        '2'
    } else if d == 3 {
        '3'
    } else if d == 4 {
        '4'
    } else if d == 5 {
        '5'
    } else if d == 6 {
        '6'
    } else if d == 7 {
        '7'
    } else if d == 8 {
        '8'
    } else {
        '9'
    }
}

/// The decimal digits of `n`, most significant first, with no sign or padding.
pub open spec fn dec_digits(n: nat) -> Seq<char>
    decreases n,
{
    if n < 10 {
        seq![digit_char(n)]
    } else {
        dec_digits(n / 10) + seq![digit_char(n % 10)]
    }
}

/// Relies on the `Display` implementation of `u64`: it writes the decimal
/// digits of the value, most significant first, with no sign or padding.
#[verifier::external_body]
pub fn decimal(n: u64) -> (r: String)
    ensures
        r@ == dec_digits(n as nat),
{
    format!("{}", n)
}

/// The countdown announcement for one remaining-seconds count: the count in
/// bold.
pub fn countdown_message(n: u64) -> (r: String)
    ensures
        r@ == "**"@ + dec_digits(n as nat) + "**"@,
{
    let mut msg = String::new();
    push_str(&mut msg, "**");
    let digits = decimal(n);
    push_str(&mut msg, digits.as_str());
    push_str(&mut msg, "**");
    proof {
        assert(msg@ =~= "**"@ + dec_digits(n as nat) + "**"@);
    }
    msg
}

} // verus!
