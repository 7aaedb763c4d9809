//! Verified decimal rendering: unsigned numerals and signed two-decimal
//! fixed-point values, as used by the output record.

use vstd::prelude::*;

use vstd::arithmetic::div_mod::{lemma_fundamental_div_mod, lemma_fundamental_div_mod_converse};

verus! {

/// Floor division of a possibly negative value by a positive scale, as
/// fixed-point rescaling needs it (Euclidean, like `/` on `int`).
pub fn floor_div_i64(a: i64, d: u64) -> (r: i64)
    requires
        0 < d <= i64::MAX as u64,
        a > i64::MIN,
    ensures
        r == a as int / d as int,
{
    if a >= 0 {
        let q: u64 = (a as u64) / d;
        q as i64
    } else {
        let n: u64 = (-a) as u64;
        let q: u64 = (n + (d - 1)) / d;
        proof {
            let ni = n as int;
            let di = d as int;
            let qi = q as int;
            let rem = (ni + di - 1) % di;
            lemma_fundamental_div_mod(ni + di - 1, di);
            assert(di * qi == ni + di - 1 - rem);
            assert((-qi) * di == -(di * qi)) by (nonlinear_arith);
            assert(a == (-qi) * di + (di - 1 - rem));
            lemma_fundamental_div_mod_converse(a as int, di, -qi, di - 1 - rem);
            assert(qi <= ni) by (nonlinear_arith)
                requires
                    di >= 1,
                    ni >= 1,
                    rem >= 0,
                    di * qi == ni + di - 1 - rem,
            ;
        }
        -(q as i64)
    }
}

/// The decimal digit character for `d` (0 through 9).
pub open spec fn spec_digit(d: int) -> char {
    if d == 0 {
        '0'
    } else if d == 1 {
        '1'
    } else if d == 2 {
        '2'
    } else if d == 3 {
        '3'
    } else if d == 4 {
        '4'
    } else if d == 5 {
        '5'
    } else if d == 6 {
        '6'
    } else if d == 7 {
        '7'
    } else if d == 8 {
        '8'
    } else {
        '9'
    }
}

/// The decimal numeral of `n`, most significant digit first, no sign.
pub open spec fn spec_decimal(n: nat) -> Seq<char>
    decreases n,
{
    if n < 10 {
        seq![spec_digit(n as int)]
    } else {
        spec_decimal(n / 10).push(spec_digit((n % 10) as int))
    }
}

/// Exactly two digits, zero-padded; the fractional part of a two-decimal
/// fixed-point numeral (`n` below 100).
pub open spec fn spec_two_digits(n: nat) -> Seq<char> {
    seq![spec_digit((n / 10) as int), spec_digit((n % 10) as int)]
}

/// A centi-unit value as a signed two-decimal numeral: optional '-', the
/// integer part, '.', and the two-digit zero-padded fraction.
pub open spec fn spec_centi(c: int) -> Seq<char> {
    if c < 0 {
        seq!['-'] + spec_centi_abs((-c) as nat)
    } else {
        spec_centi_abs(c as nat)
    }
}

/// The unsigned part of a two-decimal numeral in centi-units.
pub open spec fn spec_centi_abs(n: nat) -> Seq<char> {
    spec_decimal(n / 100) + seq!['.'] + spec_two_digits(n % 100)
}

/// The one-character string for a single decimal digit.
fn digit_str(d: u64) -> (r: &'static str)
    requires
        d < 10,
    ensures
        r@ == seq![spec_digit(d as int)],
{
    proof {
        reveal_strlit("0");
        reveal_strlit("1");
        reveal_strlit("2");
        reveal_strlit("3");
        reveal_strlit("4");
        reveal_strlit("5");
        reveal_strlit("6");
        reveal_strlit("7");
        reveal_strlit("8");
        reveal_strlit("9");
    }
    let r = if d == 0 {
        "0"
    } else if d == 1 {
        "1"
    } else if d == 2 {
        "2"
    } else if d == 3 {
        "3"
    } else if d == 4 {
        "4"
    } else if d == 5 {
        "5"
    } else if d == 6 {
        "6"
    } else if d == 7 {
        "7"
    } else if d == 8 {
        "8"
    } else {
        "9"
    };
    assert(r@ =~= seq![spec_digit(d as int)]);
    r
}

/// Appends the decimal numeral of `n` to `out`.
fn push_decimal(n: u64, out: &mut String)
    ensures
        final(out)@ == old(out)@ + spec_decimal(n as nat),
    decreases n,
{
    if n < 10 {
        out.append(digit_str(n));
        assert(out@ =~= old(out)@ + spec_decimal(n as nat));
    } else {
        push_decimal(n / 10, out);
        out.append(digit_str(n % 10));
        assert(out@ =~= old(out)@ + spec_decimal(n as nat));
    }
}

/// The decimal numeral of `n` as a string.
pub fn u64_string(n: u64) -> (r: String)
    ensures
        r@ == spec_decimal(n as nat),
{
    let mut s = String::new();
    push_decimal(n, &mut s);
    assert(s@ =~= spec_decimal(n as nat));
    s
}

/// A centi-unit value as a signed two-decimal numeral, e.g. "21.50" for
/// 2150 and "-0.07" for -7.
pub fn centi_string(c: i64) -> (r: String)
    requires
        c > i64::MIN,
    ensures
        r@ == spec_centi(c as int),
{
    proof {
        reveal_strlit("-");
        reveal_strlit(".");
    }
    let mut s = String::new();
    let n: u64;
    if c < 0 {
        s.append("-");
        assert(s@ =~= seq!['-']);
        n = (-c) as u64;
    } else {
        n = c as u64;
    }
    push_decimal(n / 100, &mut s);
    s.append(".");
    let frac: u64 = n % 100;
    s.append(digit_str(frac / 10));
    s.append(digit_str(frac % 10));
    assert(s@ =~= spec_centi(c as int));
    s
}

} // verus!
