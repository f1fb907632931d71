use vstd::prelude::*;
use vstd::string::StringExecFns;
use crate::version::Version;

verus! {

pub open spec fn digit_char(d: int) -> char {
    if d == 0 {
        '0'
    } else if d == 1 {
        '1'
    } else if d == 2 {
        '2'
    } else if d == 3 {
        '3'
    } else if d == 4 {
        '4'
    } else if d == 5 {
        '5'
    } else if d == 6 {
        '6'
    } else if d == 7 {
        '7'
    } else if d == 8 {
        '8'
    } else {
        '9'
    }
}

/// Decimal digits of a non-negative number, most significant first.
pub open spec fn dec_digits(n: int) -> Seq<char>
    decreases n,
{
    if n < 10 {
        seq![digit_char(n)]
    } else {
        dec_digits(n / 10).push(digit_char(n % 10))
    }
}

fn digit_str(d: u64) -> (r: &'static str)
    requires
        d < 10,
    ensures
        r@ == seq![digit_char(d as int)],
{
    let r = match d {
        0 => "0",
        1 => "1",
        2 => "2",
        3 => "3",
        4 => "4",
        5 => "5",
        6 => "6",
        7 => "7",
        8 => "8",
        _ => "9",
    };
    proof {
        reveal_strlit("0");
        reveal_strlit("1");
        reveal_strlit("2");
        reveal_strlit("3");
        reveal_strlit("4");
        reveal_strlit("5");
        reveal_strlit("6");
        reveal_strlit("7");
        reveal_strlit("8");
        reveal_strlit("9");
        assert(r@ =~= seq![digit_char(d as int)]);
    }
    r
}

/// Appends the decimal form of `n`.
pub fn append_u64(s: &mut String, n: u64)
    ensures
        final(s)@ == old(s)@ + dec_digits(n as int),
    decreases n,
{
    if n >= 10 {
        append_u64(s, n / 10);
        s.append(digit_str(n % 10));
        proof {
            assert(final(s)@ =~= old(s)@ + dec_digits(n as int));
        }
    } else {
        s.append(digit_str(n));
        proof {
            assert(final(s)@ =~= old(s)@ + dec_digits(n as int));
        }
    }
}

/// The decimal form of `n`.
pub fn u64_string(n: u64) -> (r: String)
    ensures
        r@ == dec_digits(n as int),
{
    let mut s = String::new();
    append_u64(&mut s, n);
    proof {
        assert(s@ =~= dec_digits(n as int));
    }
    s
}

/// The textual form `MAJOR.MINOR.PATCH` of a version.
pub open spec fn version_chars(v: Version) -> Seq<char> {
    dec_digits(v.major as int) + seq!['.'] + dec_digits(v.minor as int) + seq!['.'] + dec_digits(
        v.patch as int,
    )
}

pub fn append_version(s: &mut String, v: &Version)
    ensures
        final(s)@ == old(s)@ + version_chars(*v),
{
    append_u64(s, v.major);
    s.append(".");
    append_u64(s, v.minor);
    s.append(".");
    append_u64(s, v.patch);
    proof {
        reveal_strlit(".");
        assert("."@ =~= seq!['.']);
        assert(final(s)@ =~= old(s)@ + version_chars(*v));
    }
}

pub fn version_string(v: &Version) -> (r: String)
    ensures
        r@ == version_chars(*v),
{
    let mut s = String::new();
    append_version(&mut s, v);
    proof {
        assert(s@ =~= version_chars(*v));
    }
    s
}

/// The exact pin `=MAJOR.MINOR.PATCH` written into the manifest for one
/// trial of the version.
pub open spec fn pin_chars(v: Version) -> Seq<char> {
    seq!['='] + version_chars(v)
}

pub fn pin_expression(v: &Version) -> (r: String)
    ensures
        r@ == pin_chars(*v),
{
    let mut s = String::from_str("=");
    append_version(&mut s, v);
    proof {
        reveal_strlit("=");
        assert("="@ =~= seq!['=']);
        assert(s@ =~= pin_chars(*v));
    }
    s
}

/// The discovered bound `>=MIN, <=MAX` reported after minimization.
pub open spec fn range_chars(min: Version, max: Version) -> Seq<char> {
    ">="@ + version_chars(min) + ", <="@ + version_chars(max)
}

pub fn range_expression(min: &Version, max: &Version) -> (r: String)
    ensures
        r@ == range_chars(*min, *max),
{
    let mut s = String::from_str(">=");
    append_version(&mut s, min);
    s.append(", <=");
    append_version(&mut s, max);
    proof {
        assert(s@ =~= range_chars(*min, *max));
    }
    s
}

} // verus!
