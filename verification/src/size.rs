//! The size of a file as people read it: in bytes below a kibibyte, else in
//! the largest fitting unit with two decimals.

use crate::text::{chars_to_string, push_chars, str_chars};
use vstd::arithmetic::div_mod::{lemma_fundamental_div_mod, lemma_mod_bound};
use vstd::prelude::*;

verus! {

/// Bytes in a kibibyte.
pub const KB: u64 = 1024;

/// Bytes in a mebibyte.
pub const MB: u64 = 1_048_576;

/// Bytes in a gibibyte.
pub const GB: u64 = 1_073_741_824;

/// The first number that 53 binary digits cannot write: 2 to the 53rd.
pub const EXACT_LIMIT: u64 = 9_007_199_254_740_992;

/// The ten decimal digits.
pub const DIGITS: &'static str = "0123456789";

/// `n` in units of `d`, rounded to the nearest whole number and, halfway
/// between two, to the even one.
pub open spec fn round_half_even(n: nat, d: nat) -> nat
    recommends
        d > 0,
{
    let q = n / d;
    let r = n % d;
    if 2 * r < d {
        q
    } else if 2 * r > d {
        q + 1
    } else if q % 2 == 0 {
        q
    } else {
        q + 1
    }
}

/// The step between neighbouring numbers of 53 binary digits around
/// `size`: 1 below 2 to the 53rd, and twice the step of half the size from
/// there on.
pub open spec fn step_at(size: nat) -> nat
    decreases size,
{
    if size < EXACT_LIMIT {
        1
    } else {
        2 * step_at(size / 2)
    }
}

/// The number of 53 binary digits that is nearest to `size`. Sizes are shown
/// with this precision; below 2 to the 53rd it is the size itself.
pub open spec fn nearest_exact(size: nat) -> nat {
    round_half_even(size, step_at(size)) * step_at(size)
}

/// The size in hundredths of `unit`, rounded half to even.
pub open spec fn hundredths(size: u64, unit: u64) -> nat {
    round_half_even(nearest_exact(size as nat) * 100, unit as nat)
}

/// The decimal digit for a number below ten.
pub open spec fn digit(d: nat) -> char
    recommends
        d < 10,
{
    DIGITS@[d as int]
}

/// A number in decimal notation, without leading zeros.
pub open spec fn decimal(n: nat) -> Seq<char>
    decreases n,
{
    if n < 10 {
        seq![digit(n)]
    } else {
        decimal(n / 10).push(digit(n % 10))
    }
}

/// A count of hundredths with a decimal point: the whole part, a point, and
/// two digits.
pub open spec fn two_decimals(h: nat) -> Seq<char> {
    decimal(h / 100) + seq!['.', digit(h / 10 % 10), digit(h % 10)]
}

/// A size as text: `512 B`, `1.50 KB`, `2.00 MB`, `3.25 GB`. The unit is the
/// largest of gibibyte, mebibyte and kibibyte that the size reaches.
pub open spec fn size_text(size: u64) -> Seq<char> {
    if size >= GB {
        two_decimals(hundredths(size, GB)) + " GB"@
    } else if size >= MB {
        two_decimals(hundredths(size, MB)) + " MB"@
    } else if size >= KB {
        two_decimals(hundredths(size, KB)) + " KB"@
    } else {
        decimal(size as nat) + " B"@
    }
}

/// `n` in units of `d`, rounded half to even.
fn rounded(n: u128, d: u128) -> (r: u128)
    requires
        0 < d <= u64::MAX,
        n < u128::MAX / 2,
    ensures
        r == round_half_even(n as nat, d as nat),
        r * d <= n + d,
{
    let q = n / d;
    let r = n % d;
    proof {
        lemma_fundamental_div_mod(n as int, d as int);
        lemma_mod_bound(n as int, d as int);
        assert(q * d == d * q) by (nonlinear_arith);
        assert((q + 1) * d == q * d + d) by (nonlinear_arith);
    }
    if 2 * r < d {
        q
    } else if 2 * r > d {
        q + 1
    } else if q % 2 == 0 {
        q
    } else {
        q + 1
    }
}

/// The step between neighbouring numbers of 53 binary digits around `size`.
fn step(size: u64) -> (u: u64)
    ensures
        u == step_at(size as nat),
        1 <= u <= 4096,
{
    let mut s: u64 = size;
    let mut u: u64 = 1;
    while s >= EXACT_LIMIT
        invariant
            1 <= u <= 4096,
            s * u <= size,
            step_at(size as nat) == u * step_at(s as nat),
        decreases s,
    {
        assert(u * 9_007_199_254_740_992 <= s * u) by (nonlinear_arith)
            requires
                s >= 9_007_199_254_740_992,
                u >= 1,
        ;
        assert(u <= 2047);
        let ghost half = (s / 2) as nat;
        assert(step_at(s as nat) == 2 * step_at(half));
        assert((s / 2) * (u * 2) <= s * u) by (nonlinear_arith)
            requires
                u >= 1,
                s >= 0,
        ;
        assert(u * (2 * step_at(half)) == (u * 2) * step_at(half)) by (nonlinear_arith);
        s = s / 2;
        u = u * 2;
    }
    assert(step_at(s as nat) == 1);
    assert(u * 1 == u) by (nonlinear_arith);
    u
}

/// The size in hundredths of `unit`.
fn in_hundredths(size: u64, unit: u64) -> (h: u128)
    requires
        unit > 0,
    ensures
        h == hundredths(size, unit),
{
    let u = step(size) as u128;
    let whole = rounded(size as u128, u);
    let exact = whole * u;
    rounded(exact * 100, unit as u128)
}

/// The decimal digit for a number below ten.
fn digit_char(d: u8) -> (c: char)
    requires
        d < 10,
    ensures
        c == digit(d as nat),
{
    proof {
        reveal_strlit("0123456789");
    }
    match d {
        0 => '0',
        1 => '1',
        2 => '2',
        3 => '3',
        4 => '4',
        5 => '5',
        6 => '6',
        7 => '7',
        8 => '8',
        _ => '9',
    }
}

/// Appends `n` in decimal notation to `out`.
fn push_decimal(out: &mut Vec<char>, n: u128)
    ensures
        final(out)@ == old(out)@ + decimal(n as nat),
    decreases n,
{
    if n >= 10 {
        push_decimal(out, n / 10);
    }
    out.push(digit_char((n % 10) as u8));
    assert(final(out)@ =~= old(out)@ + decimal(n as nat));
}

/// Appends a count of hundredths with a decimal point to `out`.
fn push_two_decimals(out: &mut Vec<char>, h: u128)
    ensures
        final(out)@ == old(out)@ + two_decimals(h as nat),
{
    push_decimal(out, h / 100);
    out.push('.');
    out.push(digit_char((h / 10 % 10) as u8));
    out.push(digit_char((h % 10) as u8));
    assert(final(out)@ =~= old(out)@ + two_decimals(h as nat));
}

/// A number in decimal notation.
pub fn decimal_string(n: u64) -> (r: String)
    ensures
        r@ == decimal(n as nat),
{
    let mut out: Vec<char> = Vec::new();
    push_decimal(&mut out, n as u128);
    assert(Seq::<char>::empty() + decimal(n as nat) =~= decimal(n as nat));
    chars_to_string(&out)
}

/// A size as people read it. Up to 1023 bytes are shown as bytes. Larger
/// sizes are shown in kibibytes, mebibytes or gibibytes with two decimals,
/// rounded half to even from the nearest number of 53 binary digits.
pub fn format_size(size: u64) -> (r: String)
    ensures
        r@ == size_text(size),
{
    let mut out: Vec<char> = Vec::new();
    if size >= GB {
        push_two_decimals(&mut out, in_hundredths(size, GB));
        push_chars(&mut out, &str_chars(" GB"));
    } else if size >= MB {
        push_two_decimals(&mut out, in_hundredths(size, MB));
        push_chars(&mut out, &str_chars(" MB"));
    } else if size >= KB {
        push_two_decimals(&mut out, in_hundredths(size, KB));
        push_chars(&mut out, &str_chars(" KB"));
    } else {
        push_decimal(&mut out, size as u128);
        push_chars(&mut out, &str_chars(" B"));
    }
    chars_to_string(&out)
}

} // verus!
