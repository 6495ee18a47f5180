//! Verified wire formatting of property values.
//!
//! Property reads and event frames carry values as text: booleans and small
//! integers as their JSON encoding, fixed-point sensor readings as decimal
//! numbers with up to two fractional digits and no trailing zeros, and
//! structured colors as a JSON object. Each formatter's output is pinned
//! character by character by a specification function.

use vstd::prelude::*;
use vstd::string::StringExecFns;

verus! {

/// The character for one decimal digit.
pub open spec fn digit_char(d: int) -> char {
    if d == 0 {
        '0'
    } else if d == 1 {
        '1'
    } else if d == 2 {
        '2'
    } else if d == 3 {
        '3'
    } else if d == 4 {
        '4'
    } else if d == 5 {
        '5'
    } else if d == 6 {
        '6'
    } else if d == 7 {
        '7'
    } else if d == 8 {
        '8'
    } else {
        '9'
    }
}

/// The usual decimal digits of `n`, most significant first, no leading
/// zeros (a single zero for zero).
pub open spec fn dec_digits(n: nat) -> Seq<char>
    decreases n,
{
    if n < 10 {
        seq![digit_char(n as int)]
    } else {
        dec_digits(n / 10).push(digit_char((n % 10) as int))
    }
}

/// Append one decimal digit character to `s`.
fn push_digit(s: &mut String, d: u64)
    requires
        d < 10,
    ensures
        final (s)@ == old(s)@.push(digit_char(d as int)),
{
    let t: &str = match d {
        0 => "0",
        1 => "1",
        2 => "2",
        3 => "3",
        4 => "4",
        5 => "5",
        6 => "6",
        7 => "7",
        8 => "8",
        _ => "9",
    };
    proof {
        reveal_strlit("0");
        reveal_strlit("1");
        reveal_strlit("2");
        reveal_strlit("3");
        reveal_strlit("4");
        reveal_strlit("5");
        reveal_strlit("6");
        reveal_strlit("7");
        reveal_strlit("8");
        reveal_strlit("9");
        assert(t@ =~= seq![digit_char(d as int)]);
    }
    s.append(t);
    proof {
        assert(final (s)@ =~= old(s)@.push(digit_char(d as int)));
    }
}

/// Format an unsigned integer in decimal.
pub fn format_u64(n: u64) -> (r: String)
    ensures
        r@ == dec_digits(n as nat),
    decreases n,
{
    if n < 10 {
        let mut s = String::new();
        push_digit(&mut s, n);
        proof {
            assert(s@ =~= dec_digits(n as nat));
        }
        s
    } else {
        let mut s = format_u64(n / 10);
        push_digit(&mut s, n % 10);
        s
    }
}

/// The decimal rendering of a nonnegative centi-unit value: integer part,
/// then a fractional part of one or two digits, omitted when zero.
pub open spec fn centi_digits(m: nat) -> Seq<char> {
    let ip = m / 100;
    let fp = m % 100;
    if fp == 0 {
        dec_digits(ip)
    } else if fp % 10 == 0 {
        dec_digits(ip) + seq!['.', digit_char((fp / 10) as int)]
    } else {
        dec_digits(ip) + seq!['.', digit_char((fp / 10) as int), digit_char((fp % 10) as int)]
    }
}

/// The decimal rendering of a signed centi-unit value, e.g. a temperature
/// in hundredths of a degree.
pub open spec fn centi_str(c: int) -> Seq<char> {
    if c < 0 {
        seq!['-'] + centi_digits((-c) as nat)
    } else {
        centi_digits(c as nat)
    }
}

/// Format the nonnegative centi-unit value `m` as a decimal number.
fn format_centi_mag(m: u64) -> (r: String)
    ensures
        r@ == centi_digits(m as nat),
{
    let ip: u64 = m / 100;
    let fp: u64 = m % 100;
    let mut s = format_u64(ip);
    if fp == 0 {
        return s;
    }
    proof {
        reveal_strlit(".");
        assert("."@ =~= seq!['.']);
    }
    s.append(".");
    push_digit(&mut s, fp / 10);
    if fp % 10 == 0 {
        proof {
            assert(s@ =~= centi_digits(m as nat));
        }
        return s;
    }
    push_digit(&mut s, fp % 10);
    proof {
        assert(s@ =~= centi_digits(m as nat));
    }
    s
}

/// Format a signed centi-unit value, such as a sensor reading in hundredths
/// of a unit, as a decimal number.
pub fn format_centi(c: i32) -> (r: String)
    ensures
        r@ == centi_str(c as int),
{
    if c >= 0 {
        format_centi_mag(c as u64)
    } else {
        let mut s = "-".to_owned();
        let mag: u64 = (-(c as i64)) as u64;
        let digits = format_centi_mag(mag);
        s.append(digits.as_str());
        proof {
            reveal_strlit("-");
            assert(s@ =~= centi_str(c as int));
        }
        s
    }
}

/// The JSON encoding of a boolean.
pub open spec fn json_bool(b: bool) -> Seq<char> {
    if b {
        "true"@
    } else {
        "false"@
    }
}

/// Format a boolean as its JSON encoding.
pub fn format_json_bool(b: bool) -> (r: String)
    ensures
        r@ == json_bool(b),
{
    if b {
        "true".to_owned()
    } else {
        "false".to_owned()
    }
}

/// Format an eight-bit integer as its JSON encoding.
pub fn format_json_u8(n: u8) -> (r: String)
    ensures
        r@ == dec_digits(n as nat),
{
    format_u64(n as u64)
}

/// The JSON object encoding of an eight-bit RGB color.
pub open spec fn json_rgb(r: u8, g: u8, b: u8) -> Seq<char> {
    "{\"r\":"@ + dec_digits(r as nat) + ",\"g\":"@ + dec_digits(g as nat) + ",\"b\":"@
        + dec_digits(b as nat) + "}"@
}

/// Format an eight-bit RGB color as a JSON object with fields `r`, `g`,
/// `b`, in that order.
pub fn format_json_rgb(r: u8, g: u8, b: u8) -> (s: String)
    ensures
        s@ == json_rgb(r, g, b),
{
    let mut s = "{\"r\":".to_owned();
    let rd = format_u64(r as u64);
    s.append(rd.as_str());
    s.append(",\"g\":");
    let gd = format_u64(g as u64);
    s.append(gd.as_str());
    s.append(",\"b\":");
    let bd = format_u64(b as u64);
    s.append(bd.as_str());
    s.append("}");
    proof {
        assert(s@ =~= json_rgb(r, g, b));
    }
    s
}

} // verus!
