//! Human-readable byte sizes, as shown after a build ("12 B", "1.5 KB", "3.2 MB").
//!
//! The sizes are computed exactly in integer arithmetic: the value shown with one
//! decimal is the byte count converted to a double (rounded to a 53-bit significand,
//! ties to even), divided by 1024 or 1024², and rounded to tenths, ties to even.
use vstd::arithmetic::power2::{
    lemma2_to64, lemma_pow2_adds, lemma_pow2_pos, lemma_pow2_strictly_increases, lemma_pow2_unfold,
    pow2,
};
use vstd::prelude::*;

use crate::text::push_char;

verus! {

/// The digit character for a value below ten.
pub open spec fn digit_char(d: nat) -> char {
    (48 + d) as char
}

/// The decimal notation of a natural number, without leading zeros.
pub open spec fn decimal(n: nat) -> Seq<char>
    decreases n,
{
    if n < 10 {
        seq![digit_char(n)]
    } else {
        decimal(n / 10).push(digit_char(n % 10))
    }
}

/// The number of binary digits of `x` (0 for 0).
pub open spec fn bit_len(x: nat) -> nat
    decreases x,
{
    if x == 0 {
        0
    } else {
        1 + bit_len(x / 2)
    }
}

/// The quotient `n / d` rounded to the nearest integer, ties to the even neighbour.
pub open spec fn round_half_even(n: nat, d: nat) -> nat {
    let q = n / d;
    let r = n % d;
    if 2 * r > d || (2 * r == d && q % 2 == 1) {
        q + 1
    } else {
        q
    }
}

/// The value of `x as f64`: `x` rounded to 53 significant bits, ties to even.
pub open spec fn f64_of(x: nat) -> nat {
    if bit_len(x) <= 53 {
        x
    } else {
        let unit = pow2((bit_len(x) - 53) as nat);
        round_half_even(x, unit) * unit
    }
}

/// `n / d` written with exactly one decimal, rounded to tenths, ties to even.
pub open spec fn tenths_text(n: nat, d: nat) -> Seq<char> {
    let t = round_half_even(10 * n, d);
    decimal(t / 10).push('.').push(digit_char(t % 10))
}

/// The text of a byte count: bytes below 1024, kilobytes below 1024 * 1024,
/// megabytes above.
pub open spec fn size_text(bytes: nat) -> Seq<char> {
    if bytes >= 1048576 {
        tenths_text(f64_of(bytes), 1048576) + seq![' ', 'M', 'B']
    } else if bytes >= 1024 {
        tenths_text(bytes, 1024) + seq![' ', 'K', 'B']
    } else {
        decimal(bytes) + seq![' ', 'B']
    }
}

/// A value below `pow2(k)` has at most `k` binary digits, and conversely.
pub proof fn lemma_bit_len_bound(x: nat, k: nat)
    ensures
        (bit_len(x) <= k) == (x < pow2(k)),
    decreases x,
{
    if x == 0 {
        lemma_pow2_pos(k);
    } else if k == 0 {
        lemma2_to64();
    } else {
        lemma_bit_len_bound(x / 2, (k - 1) as nat);
        lemma_pow2_unfold(k);
    }
}

/// The digit character for `d < 10`.
fn digit(d: u128) -> (c: char)
    requires
        d < 10,
    ensures
        c == digit_char(d as nat),
{
    let b: u8 = 48 + (d as u8);
    b as char
}

/// Appends the decimal notation of `n`.
pub fn push_decimal(s: &mut String, n: u128)
    ensures
        final(s)@ == old(s)@ + decimal(n as nat),
    decreases n,
{
    if n >= 10 {
        push_decimal(s, n / 10);
    }
    push_char(s, digit(n % 10));
    proof {
        if n >= 10 {
            assert(decimal(n as nat) == decimal((n / 10) as nat).push(digit_char((n % 10) as nat)));
        }
        assert(final(s)@ =~= old(s)@ + decimal(n as nat));
    }
}

/// The quotient `n / d` rounded to the nearest integer, ties to even.
fn round_div(n: u128, d: u128) -> (r: u128)
    requires
        0 < d < 0x1_0000_0000_0000_0000_0000_0000_0000,
        n < 0x1_0000_0000_0000_0000_0000_0000_0000,
    ensures
        r == round_half_even(n as nat, d as nat),
{
    let q = n / d;
    let rem = n % d;
    if 2 * rem > d || (2 * rem == d && q % 2 == 1) {
        q + 1
    } else {
        q
    }
}

/// The number of binary digits of `x`.
fn bit_length(x: u64) -> (r: u32)
    ensures
        r == bit_len(x as nat),
        r <= 64,
{
    let mut y = x;
    let mut len: u32 = 0;
    proof {
        lemma2_to64();
        lemma_bit_len_bound(x as nat, 64);
    }
    while y > 0
        invariant
            bit_len(x as nat) == len + bit_len(y as nat),
            bit_len(x as nat) <= 64,
        decreases y,
    {
        y = y / 2;
        len = len + 1;
    }
    len
}

/// `x as f64`, as an exact integer.
fn f64_value(x: u64) -> (r: u128)
    ensures
        r == f64_of(x as nat),
        r <= 0x1_0000_0000_0000_0000,
{
    let len = bit_length(x);
    if len <= 53 {
        x as u128
    } else {
        let shift = len - 53;
        let mut unit: u128 = 1;
        let mut i: u32 = 0;
        proof {
            lemma2_to64();
        }
        while i < shift
            invariant
                i <= shift,
                shift <= 11,
                unit == pow2(i as nat),
            decreases shift - i,
        {
            proof {
                lemma_pow2_unfold((i + 1) as nat);
                lemma_pow2_strictly_increases(i as nat, 11);
                lemma2_to64();
            }
            unit = unit * 2;
            i = i + 1;
        }
        proof {
            if shift < 11 {
                lemma_pow2_strictly_increases(shift as nat, 11);
            }
            lemma_pow2_pos(shift as nat);
            lemma2_to64();
            lemma_bit_len_bound(x as nat, 64);
            lemma_pow2_adds(53, shift as nat);
        }
        let q = round_div(x as u128, unit);
        proof {
            // x < 2^(53 + shift), so the rounded quotient is at most 2^53
            lemma_bit_len_bound(x as nat, len as nat);
            assert((x as nat) < pow2(53) * pow2(shift as nat));
            assert((x as nat) / (unit as nat) < pow2(53)) by (nonlinear_arith)
                requires
                    (x as nat) < pow2(53) * (unit as nat),
                    unit > 0,
            ;
            assert(q <= pow2(53));
            assert(pow2(53) * pow2(shift as nat) <= pow2(53) * pow2(11)) by (nonlinear_arith)
                requires
                    pow2(shift as nat) <= pow2(11),
            ;
            assert(pow2(11) == 2048) by {
                lemma2_to64();
            }
            assert(pow2(53) * 2048 == pow2(64)) by {
                lemma2_to64();
                lemma_pow2_adds(53, 11);
            }
            assert((q as nat) * (unit as nat) <= pow2(53) * (unit as nat)) by (nonlinear_arith)
                requires
                    q <= pow2(53),
            ;
        }
        q * unit
    }
}

/// Appends `n / d` with one decimal, rounded to tenths, ties to even.
fn push_tenths(s: &mut String, n: u128, d: u128)
    requires
        0 < d <= 1048576,
        n <= 0x1_0000_0000_0000_0000,
    ensures
        final(s)@ == old(s)@ + tenths_text(n as nat, d as nat),
{
    let t = round_div(10 * n, d);
    push_decimal(s, t / 10);
    push_char(s, '.');
    push_char(s, digit(t % 10));
    proof {
        assert(final(s)@ =~= old(s)@ + tenths_text(n as nat, d as nat));
    }
}

/// Renders a byte count the way the build summary shows it: "512 B", "1.5 KB",
/// "3.2 MB" (one decimal, the way `{:.1}` prints the quotient as a double).
pub fn format_size(bytes: u64) -> (r: String)
    ensures
        r@ == size_text(bytes as nat),
{
    let mut s = String::new();
    if bytes >= 1048576 {
        let v = f64_value(bytes);
        push_tenths(&mut s, v, 1048576);
        push_char(&mut s, ' ');
        push_char(&mut s, 'M');
        push_char(&mut s, 'B');
    } else if bytes >= 1024 {
        push_tenths(&mut s, bytes as u128, 1024);
        push_char(&mut s, ' ');
        push_char(&mut s, 'K');
        push_char(&mut s, 'B');
    } else {
        push_decimal(&mut s, bytes as u128);
        push_char(&mut s, ' ');
        push_char(&mut s, 'B');
    }
    assert(s@ =~= size_text(bytes as nat));
    s
}

} // verus!
