//! Text shown on the dashboard: durations as clock time, byte counts in binary units
//! with two decimals, and the parsing of numbers typed into its fields.

use crate::text::{decimal, decimal_pad2, owned, push_char, push_decimal, push_decimal_pad2, push_str};
use vstd::arithmetic::power2::pow2;
use vstd::prelude::*;

verus! {

/// `secs` as `HH:MM:SS`, each part zero-padded to two digits; hours may run longer.
pub open spec fn clock_text(secs: nat) -> Seq<char> {
    decimal_pad2(secs / 3600) + seq![':'] + decimal_pad2((secs % 3600) / 60) + seq![':']
        + decimal_pad2(secs % 60)
}

/// A duration of `total_secs` seconds as `HH:MM:SS`.
pub fn format_duration(total_secs: u64) -> (r: String)
    ensures
        r@ == clock_text(total_secs as nat),
{
    let hours = total_secs / 3600;
    let minutes = (total_secs % 3600) / 60;
    let seconds = total_secs % 60;
    let mut r = String::new();
    push_decimal_pad2(&mut r, hours);
    push_char(&mut r, ':');
    push_decimal_pad2(&mut r, minutes);
    push_char(&mut r, ':');
    push_decimal_pad2(&mut r, seconds);
    assert(r@ =~= clock_text(total_secs as nat));
    r
}

/// `n` rounded to the nearest multiple of `2^shift`, ties to the even multiple.
pub open spec fn round_to_multiple(n: nat, shift: nat) -> nat {
    let d = pow2(shift);
    let q = n / d;
    let r = n % d;
    if 2 * r > d || (2 * r == d && q % 2 == 1) {
        (q + 1) * d
    } else {
        q * d
    }
}

/// The number of bits needed to write `n`.
pub open spec fn bit_len(n: nat) -> nat
    decreases n,
{
    if n == 0 {
        0
    } else {
        1 + bit_len(n / 2)
    }
}

/// The value a count converts to as a double: exact below `2^53`, else rounded to 53
/// significant bits, ties to even.
pub open spec fn as_double(n: nat) -> nat {
    if bit_len(n) <= 53 {
        n
    } else {
        round_to_multiple(n, (bit_len(n) - 53) as nat)
    }
}

/// `num / den` rounded to the nearest integer, ties to even.
pub open spec fn div_round_even(num: nat, den: nat) -> nat {
    let q = num / den;
    let r = num % den;
    if 2 * r > den || (2 * r == den && q % 2 == 1) {
        q + 1
    } else {
        q
    }
}

/// The hundredths of `bytes / 2^(10 k)` as a double, rounded to the nearest, ties to even.
pub open spec fn hundredths(bytes: nat, k: nat) -> nat {
    div_round_even(as_double(bytes) * 100, pow2(10 * k))
}

/// `h` hundredths written with two decimals.
pub open spec fn two_decimals(h: nat) -> Seq<char> {
    decimal(h / 100) + seq!['.'] + decimal_pad2(h % 100)
}

/// A byte count in the largest binary unit it reaches, with two decimals; below a
/// kilobyte it is written as a whole number of bytes.
pub open spec fn bytes_text(bytes: nat) -> Seq<char> {
    if bytes >= pow2(30) {
        two_decimals(hundredths(bytes, 3)) + " GB"@
    } else if bytes >= pow2(20) {
        two_decimals(hundredths(bytes, 2)) + " MB"@
    } else if bytes >= pow2(10) {
        two_decimals(hundredths(bytes, 1)) + " KB"@
    } else {
        decimal(bytes) + " B"@
    }
}

proof fn lemma_bit_len_bound(n: nat, b: nat)
    requires
        n < pow2(b),
    ensures
        bit_len(n) <= b,
    decreases b,
{
    if n > 0 {
        if b == 0 {
            vstd::arithmetic::power2::lemma2_to64();
        } else {
            vstd::arithmetic::power2::lemma_pow2_unfold(b);
            assert(n / 2 < pow2((b - 1) as nat));
            lemma_bit_len_bound(n / 2, (b - 1) as nat);
        }
    }
}

proof fn lemma_bit_len_lower(n: nat, b: nat)
    requires
        n >= pow2(b),
    ensures
        bit_len(n) > b,
    decreases b,
{
    vstd::arithmetic::power2::lemma_pow2_pos(b);
    if b == 0 {
        vstd::arithmetic::power2::lemma2_to64();
    } else {
        vstd::arithmetic::power2::lemma_pow2_unfold(b);
        assert(n / 2 >= pow2((b - 1) as nat));
        lemma_bit_len_lower(n / 2, (b - 1) as nat);
    }
}

fn bits_of(n: u64) -> (b: u64)
    ensures
        b == bit_len(n as nat),
        b <= 64,
{
    proof {
        vstd::arithmetic::power2::lemma2_to64();
        lemma_bit_len_bound(n as nat, 64);
    }
    let mut m = n;
    let mut b: u64 = 0;
    while m > 0
        invariant
            bit_len(n as nat) == b + bit_len(m as nat),
            b + bit_len(m as nat) <= 64,
        decreases m,
    {
        m = m / 2;
        b = b + 1;
    }
    b
}

fn pow2_u128(e: u64) -> (p: u128)
    requires
        e <= 64,
    ensures
        p == pow2(e as nat),
{
    let mut p: u128 = 1;
    let mut i: u64 = 0;
    proof {
        vstd::arithmetic::power2::lemma2_to64();
        vstd::arithmetic::power2::lemma2_to64_rest();
    }
    while i < e
        invariant
            i <= e,
            e <= 64,
            p == pow2(i as nat),
            pow2(64) == 0x10000000000000000,
        decreases e - i,
    {
        proof {
            vstd::arithmetic::power2::lemma_pow2_unfold((i + 1) as nat);
            if i + 1 < 64 {
                vstd::arithmetic::power2::lemma_pow2_strictly_increases((i + 1) as nat, 64);
            }
        }
        p = p * 2;
        i = i + 1;
    }
    p
}

fn double_value(n: u64) -> (v: u128)
    ensures
        v == as_double(n as nat),
        v <= pow2(64),
{
    let b = bits_of(n);
    proof {
        vstd::arithmetic::power2::lemma2_to64();
        vstd::arithmetic::power2::lemma2_to64_rest();
    }
    if b <= 53 {
        proof {
            vstd::arithmetic::power2::lemma_pow2_strictly_increases(64, 65);
        }
        return n as u128;
    }
    let shift = b - 53;
    let d = pow2_u128(shift);
    proof {
        vstd::arithmetic::power2::lemma_pow2_pos(shift as nat);
    }
    let q = (n as u128) / d;
    let r = (n as u128) % d;
    assert((q + 1) * d <= n + d && q * d <= n) by (nonlinear_arith)
        requires
            q == (n as int) / (d as int),
            d > 0,
    {
    }
    let v = if 2 * r > d || (2 * r == d && q % 2 == 1) {
        (q + 1) * d
    } else {
        q * d
    };
    proof {
        assert(d > 0) by {
            vstd::arithmetic::power2::lemma_pow2_pos(shift as nat);
        }
        let m = pow2((64 - shift) as nat);
        vstd::arithmetic::power2::lemma_pow2_adds(shift as nat, (64 - shift) as nat);
        assert(n < pow2(64));
        assert(v <= pow2(64)) by (nonlinear_arith)
            requires
                q == (n as int) / (d as int),
                r == (n as int) % (d as int),
                d > 0,
                n < pow2(64),
                v == (if 2 * r > d || (2 * r == d && q % 2 == 1) { (q + 1) * d } else { q * d }),
                pow2(64) == d * m,
        {
        }
    }
    v
}

fn push_two_decimals(s: &mut String, h: u128)
    requires
        h / 100 <= u64::MAX,
    ensures
        final(s)@ == old(s)@ + two_decimals(h as nat),
{
    let whole = (h / 100) as u64;
    let frac = (h % 100) as u64;
    push_decimal(s, whole);
    push_char(s, '.');
    push_decimal_pad2(s, frac);
    assert(final(s)@ =~= old(s)@ + two_decimals(h as nat));
}

/// A byte count in binary units, as [`bytes_text`] writes it.
pub fn format_bytes(bytes: u64) -> (r: String)
    ensures
        r@ == bytes_text(bytes as nat),
{
    proof {
        vstd::arithmetic::power2::lemma2_to64();
    }
    let mut r = String::new();
    if bytes < 1024 {
        push_decimal(&mut r, bytes);
        push_str(&mut r, " B");
        return r;
    }
    let (k, unit): (u64, &str) = if bytes >= 1073741824 {
        (3, " GB")
    } else if bytes >= 1048576 {
        (2, " MB")
    } else {
        (1, " KB")
    };
    let v = double_value(bytes);
    let d = pow2_u128(10 * k);
    proof {
        vstd::arithmetic::power2::lemma_pow2_pos((10 * k) as nat);
        vstd::arithmetic::power2::lemma2_to64_rest();
    }
    let num = v * 100;
    let q = num / d;
    let rem = num % d;
    let h = if 2 * rem > d || (2 * rem == d && q % 2 == 1) {
        q + 1
    } else {
        q
    };
    assert(h == hundredths(bytes as nat, k as nat));
    assert(h / 100 <= u64::MAX) by (nonlinear_arith)
        requires
            v <= pow2(64),
            pow2(64) == 0x10000000000000000,
            d >= 1024,
            q == (v * 100) / (d as int),
            h <= q + 1,
    {
    }
    push_two_decimals(&mut r, h);
    push_str(&mut r, unit);
    r
}

} // verus!
