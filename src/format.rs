//! Rendering of byte counts and other integers as text.
use vstd::prelude::*;

verus! {

/// The character of a decimal digit.
pub open spec fn digit_char(d: nat) -> char {
    if d == 0 {
        '0'
    } else if d == 1 {
        '1'
    } else if d == 2 {
        '2'
    } else if d == 3 {
        '3'
    } else if d == 4 {
        '4'
    } else if d == 5 {
        '5'
    } else if d == 6 {
        '6'
    } else if d == 7 {
        '7'
    } else if d == 8 {
        '8'
    } else {
        '9'
    }
}

/// The decimal representation of `n`, without leading zeros.
pub open spec fn decimal(n: nat) -> Seq<char>
    decreases n,
{
    if n < 10 {
        seq![digit_char(n)]
    } else {
        decimal(n / 10).push(digit_char(n % 10))
    }
}

/// The last three decimal digits of `n`, zero padded.
pub open spec fn three_digits(n: nat) -> Seq<char> {
    seq![digit_char((n / 100) % 10), digit_char((n / 10) % 10), digit_char(n % 10)]
}

/// `b / d` rounded to the nearest integer, ties going to the even neighbour.
pub open spec fn round_div(b: nat, d: nat) -> nat
    recommends
        d > 0,
{
    let q = b / d;
    let r = b % d;
    if 2 * r > d || (2 * r == d && q % 2 == 1) {
        q + 1
    } else {
        q
    }
}

/// `b` divided by `1000 * d`, written with exactly three fractional digits,
/// followed by `unit`.
pub open spec fn scaled_text(b: nat, d: nat, unit: Seq<char>) -> Seq<char> {
    let t = round_div(b, d);
    decimal(t / 1000) + seq!['.'] + three_digits(t % 1000) + unit
}

pub const KILOBYTE: u64 = 1_000;

pub const MEGABYTE: u64 = 1_000_000;

pub const GIGABYTE: u64 = 1_000_000_000;

pub const TERABYTE: u64 = 1_000_000_000_000;

/// The human-scaled rendering of a byte count, with decimal units: the
/// largest unit of TB, GB, MB and KB that does not exceed the count, or the
/// plain count followed by `B` below one kilobyte.
pub open spec fn format_bytes(b: nat) -> Seq<char> {
    if b >= TERABYTE {
        scaled_text(b, GIGABYTE as nat, seq!['T', 'B'])
    } else if b >= GIGABYTE {
        scaled_text(b, MEGABYTE as nat, seq!['G', 'B'])
    } else if b >= MEGABYTE {
        scaled_text(b, KILOBYTE as nat, seq!['M', 'B'])
    } else if b >= KILOBYTE {
        scaled_text(b, 1, seq!['K', 'B'])
    } else {
        decimal(b) + seq!['B']
    }
}

fn digit_str(d: u64) -> (r: &'static str)
    requires
        d < 10,
    ensures
        r@ == seq![digit_char(d as nat)],
{
    let r = if d == 0 {
        "0"
    } else if d == 1 {
        "1"
    } else if d == 2 {
        "2"
    } else if d == 3 {
        "3"
    } else if d == 4 {
        "4"
    } else if d == 5 {
        "5"
    } else if d == 6 {
        "6"
    } else if d == 7 {
        "7"
    } else if d == 8 {
        "8"
    } else {
        "9"
    };
    proof {
        reveal_strlit("0");
        reveal_strlit("1");
        reveal_strlit("2");
        reveal_strlit("3");
        reveal_strlit("4");
        reveal_strlit("5");
        reveal_strlit("6");
        reveal_strlit("7");
        reveal_strlit("8");
        reveal_strlit("9");
        assert(r@ =~= seq![digit_char(d as nat)]);
    }
    r
}

/// Appends the decimal representation of `n` to `out`.
pub fn push_decimal(out: &mut String, n: u64)
    ensures
        final(out)@ == old(out)@ + decimal(n as nat),
    decreases n,
{
    if n >= 10 {
        push_decimal(out, n / 10);
    }
    out.append(digit_str(n % 10));
    proof {
        if n >= 10 {
            assert(old(out)@ + decimal(n as nat) =~= old(out)@ + decimal((n / 10) as nat) + seq![digit_char((n % 10) as nat)]);
        } else {
            assert(decimal(n as nat) == seq![digit_char(n as nat)]);
        }
    }
}

/// The decimal representation of `n`.
pub fn decimal_string(n: u64) -> (r: String)
    ensures
        r@ == decimal(n as nat),
{
    let mut s = String::new();
    push_decimal(&mut s, n);
    proof {
        assert(s@ =~= decimal(n as nat));
    }
    s
}

fn push_scaled(out: &mut String, b: u64, d: u64, unit: &str)
    requires
        d == 1 || d == KILOBYTE || d == MEGABYTE || d == GIGABYTE,
    ensures
        final(out)@ == old(out)@ + scaled_text(b as nat, d as nat, unit@),
{
    let q = b / d;
    let r = b % d;
    let t: u64 = if r > d - r || (r == d - r && q % 2 == 1) {
        assert(d > 1);
        assert(q < u64::MAX) by (nonlinear_arith)
            requires q == b / d, d > 1;
        q + 1
    } else {
        q
    };
    assert(t as nat == round_div(b as nat, d as nat));
    push_decimal(out, t / 1000);
    out.append(".");
    let f = t % 1000;
    out.append(digit_str(f / 100));
    out.append(digit_str((f / 10) % 10));
    out.append(digit_str(f % 10));
    out.append(unit);
    proof {
        reveal_strlit(".");
        assert(f as nat == (t as nat) % 1000);
        assert(final(out)@ =~= old(out)@ + scaled_text(b as nat, d as nat, unit@));
    }
}

/// Renders a byte count scaled to decimal units with three fractional
/// digits (`1.500KB`, `10.000TB`), or as a plain count below one kilobyte
/// (`999B`). Fractions are rounded to the nearest thousandth, ties to even.
pub fn pretty_format_bytes(bytes: u64) -> (r: String)
    ensures
        r@ == format_bytes(bytes as nat),
{
    let mut s = String::new();
    if bytes >= TERABYTE {
        push_scaled(&mut s, bytes, GIGABYTE, "TB");
        proof { reveal_strlit("TB"); }
    } else if bytes >= GIGABYTE {
        push_scaled(&mut s, bytes, MEGABYTE, "GB");
        proof { reveal_strlit("GB"); }
    } else if bytes >= MEGABYTE {
        push_scaled(&mut s, bytes, KILOBYTE, "MB");
        proof { reveal_strlit("MB"); }
    } else if bytes >= KILOBYTE {
        push_scaled(&mut s, bytes, 1, "KB");
        proof { reveal_strlit("KB"); }
    } else {
        push_decimal(&mut s, bytes);
        s.append("B");
        proof { reveal_strlit("B"); }
    }
    proof {
        assert(s@ =~= format_bytes(bytes as nat));
    }
    s
}

} // verus!
