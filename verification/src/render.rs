//! Decimal rendering of integers and of IPv4 addresses.
//!
//! Stage errors embed the backend's numeric code in a message, and the
//! address stage turns the four octets the backend reports into the usual
//! dotted-decimal text; both renderings are specified here and proved.

use vstd::prelude::*;

verus! {

/// The character for a single decimal digit.
pub open spec fn digit_char(d: nat) -> char {
    if d == 0 {
        '0'
    } else if d == 1 {
        '1'
    } else if d == 2 {
        '2'
    } else if d == 3 {
        '3'
    } else if d == 4 {
        '4'
    } else if d == 5 {
        '5'
    } else if d == 6 {
        '6'
    } else if d == 7 {
        '7'
    } else if d == 8 {
        '8'
    } else {
        '9'
    }
}

/// The decimal digits of `n`, most significant first, with no leading zeros
/// (`0` itself renders as `"0"`).
pub open spec fn dec_of(n: nat) -> Seq<char>
    decreases n,
{
    if n < 10 {
        seq![digit_char(n)]
    } else {
        dec_of(n / 10) + seq![digit_char(n % 10)]
    }
}

/// The decimal rendering of a signed value: a minus sign before the digits
/// of the magnitude when the value is negative.
pub open spec fn dec_signed_of(c: int) -> Seq<char> {
    if c < 0 {
        seq!['-'] + dec_of((-c) as nat)
    } else {
        dec_of(c as nat)
    }
}

/// The dotted-decimal text of an IPv4 address given as four octets.
pub open spec fn ipv4_of(octets: Seq<u8>) -> Seq<char> {
    dec_of(octets[0] as nat) + seq!['.'] + dec_of(octets[1] as nat) + seq!['.'] + dec_of(
        octets[2] as nat,
    ) + seq!['.'] + dec_of(octets[3] as nat)
}

fn digit_str(d: u64) -> (r: &'static str)
    requires
        d < 10,
    ensures
        r@ == seq![digit_char(d as nat)],
{
    proof {
        reveal_strlit("0");
        reveal_strlit("1");
        reveal_strlit("2");
        reveal_strlit("3");
        reveal_strlit("4");
        reveal_strlit("5");
        reveal_strlit("6");
        reveal_strlit("7");
        reveal_strlit("8");
        reveal_strlit("9");
        assert("0"@ =~= seq!['0']);
        assert("1"@ =~= seq!['1']);
        assert("2"@ =~= seq!['2']);
        assert("3"@ =~= seq!['3']);
        assert("4"@ =~= seq!['4']);
        assert("5"@ =~= seq!['5']);
        assert("6"@ =~= seq!['6']);
        assert("7"@ =~= seq!['7']);
        assert("8"@ =~= seq!['8']);
        assert("9"@ =~= seq!['9']);
    }
    if d == 0 {
        "0"
    } else if d == 1 {
        "1"
    } else if d == 2 {
        "2"
    } else if d == 3 {
        "3"
    } else if d == 4 {
        "4"
    } else if d == 5 {
        "5"
    } else if d == 6 {
        "6"
    } else if d == 7 {
        "7"
    } else if d == 8 {
        "8"
    } else {
        "9"
    }
}

/// Renders `n` in decimal.
pub fn decimal_string(n: u64) -> (r: String)
    ensures
        r@ == dec_of(n as nat),
    decreases n,
{
    if n < 10 {
        digit_str(n).to_owned()
    } else {
        let prefix = decimal_string(n / 10);
        prefix.concat(digit_str(n % 10))
    }
}

/// Renders `c` in decimal, with a leading minus sign when it is negative.
pub fn signed_decimal_string(c: i32) -> (r: String)
    ensures
        r@ == dec_signed_of(c as int),
{
    let wide: i64 = c as i64;
    if wide < 0 {
        let magnitude: u64 = (-wide) as u64;
        proof {
            reveal_strlit("-");
            assert("-"@ =~= seq!['-']);
        }
        let sign = String::from_str("-");
        sign.concat(decimal_string(magnitude).as_str())
    } else {
        decimal_string(wide as u64)
    }
}

/// Renders an IPv4 address in dotted-decimal form.
pub fn format_ipv4(octets: &[u8; 4]) -> (r: String)
    ensures
        r@ == ipv4_of(octets@),
{
    proof {
        reveal_strlit(".");
        assert("."@ =~= seq!['.']);
    }
    let mut s = decimal_string(octets[0] as u64);
    s.append(".");
    s.append(decimal_string(octets[1] as u64).as_str());
    s.append(".");
    s.append(decimal_string(octets[2] as u64).as_str());
    s.append(".");
    s.append(decimal_string(octets[3] as u64).as_str());
    proof {
        assert(s@ =~= ipv4_of(octets@));
    }
    s
}

} // verus!
