//! Whole numbers read where a floating-point value is expected: the IEEE 754 binary64
//! bit pattern of the double nearest to a whole number, as a conversion with `as f64`
//! gives it (round to nearest, ties to even).
use crate::json::JsonNumber;
use vstd::arithmetic::div_mod::lemma_multiply_divide_lt;
use vstd::arithmetic::mul::lemma_mul_strict_inequality;
use vstd::arithmetic::power2::{
    lemma2_to64, lemma2_to64_rest, lemma_pow2_adds, lemma_pow2_pos, lemma_pow2_strictly_increases,
    lemma_pow2_unfold, pow2,
};
use vstd::prelude::*;

verus! {

/// The position of the highest set bit of a positive number: the `e` with
/// `2^e <= a < 2^(e + 1)`.
pub open spec fn floor_log2(a: nat) -> nat
    decreases a,
{
    if a < 2 {
        0
    } else {
        1 + floor_log2(a / 2)
    }
}

/// `a / d` rounded to the nearest whole number, ties to the even one.
pub open spec fn div_round_even(a: nat, d: nat) -> nat {
    let q = a / d;
    let r = a % d;
    if 2 * r > d || (2 * r == d && q % 2 == 1) {
        q + 1
    } else {
        q
    }
}

/// The binary64 bit pattern of the double nearest to a positive whole number `a`: with
/// `e` the position of its highest set bit, the significand `q` is `a` scaled to 53
/// bits (rounded to nearest, ties to even, when `a` has more), and the pattern is the
/// biased exponent `e + 1023` times `2^52` plus `q - 2^52`. A rounding that carries `q`
/// up to `2^53` lands, by the same sum, on the next exponent with a zero fraction.
pub open spec fn double_bits_of_nat(a: nat) -> nat {
    let e = floor_log2(a);
    let q = if e <= 52 {
        a * pow2((52 - e) as nat)
    } else {
        div_round_even(a, pow2((e - 52) as nat))
    };
    ((e + 1022) * 0x10_0000_0000_0000 + q) as nat
}

/// The binary64 bit pattern of the double nearest to a whole number: zero is `+0.0`,
/// and a negative number is its magnitude with the sign bit set.
pub open spec fn double_bits_of_int(x: int) -> u64 {
    if x == 0 {
        0
    } else if x > 0 {
        double_bits_of_nat(x as nat) as u64
    } else {
        (0x8000_0000_0000_0000 + double_bits_of_nat((-x) as nat)) as u64
    }
}

/// A JSON number read as a floating-point value: a whole number becomes the double
/// nearest to it; a floating-point number is kept.
pub open spec fn number_as_double(n: JsonNumber) -> JsonNumber {
    match n {
        JsonNumber::PosInt(u) => JsonNumber::Float(double_bits_of_int(u as int)),
        JsonNumber::NegInt(i) => JsonNumber::Float(double_bits_of_int(i as int)),
        JsonNumber::Float(b) => JsonNumber::Float(b),
    }
}

/// `floor_log2` is the position of the highest set bit.
proof fn lemma_floor_log2(a: nat, e: nat)
    requires
        pow2(e) <= a < pow2(e + 1),
    ensures
        floor_log2(a) == e,
    decreases e,
{
    lemma_pow2_unfold(e + 1);
    if e == 0 {
        lemma2_to64();
    } else {
        lemma_pow2_unfold(e);
        lemma_pow2_pos((e - 1) as nat);
        lemma_floor_log2(a / 2, (e - 1) as nat);
    }
}

/// The bit pattern of the double nearest to a positive `a` (see `double_bits_of_nat`).
fn double_bits_of_u64(a: u64) -> (r: u64)
    requires
        a > 0,
    ensures
        r == double_bits_of_nat(a as nat),
        r < 0x8000_0000_0000_0000,
{
    let mut e: u64 = 0;
    let mut p: u64 = 1;
    proof {
        lemma2_to64();
    }
    while p <= a / 2
        invariant
            p == pow2(e as nat),
            1 <= p <= a,
            e <= 63,
        decreases a - p,
    {
        proof {
            lemma_pow2_unfold((e + 1) as nat);
            lemma2_to64_rest();
        }
        p = p * 2;
        e = e + 1;
    }
    proof {
        lemma_pow2_unfold((e + 1) as nat);
        lemma_floor_log2(a as nat, e as nat);
        lemma2_to64();
        lemma2_to64_rest();
    }
    if e <= 52 {
        let mut f: u64 = 1;
        let mut k: u64 = e;
        while k < 52
            invariant
                e <= k <= 52,
                f == pow2((k - e) as nat),
            decreases 52 - k,
        {
            proof {
                lemma_pow2_unfold((k - e + 1) as nat);
                lemma_pow2_strictly_increases((k - e + 1) as nat, 53);
                lemma2_to64_rest();
            }
            f = f * 2;
            k = k + 1;
        }
        proof {
            lemma_pow2_adds((e + 1) as nat, (52 - e) as nat);
            lemma_pow2_pos((52 - e) as nat);
            lemma_mul_strict_inequality(a as int, pow2((e + 1) as nat) as int, f as int);
            lemma2_to64_rest();
        }
        let m = a * f;
        (e + 1022) * 0x10_0000_0000_0000 + m
    } else {
        let mut d: u64 = 1;
        let mut k: u64 = 52;
        while k < e
            invariant
                52 <= k <= e,
                e <= 63,
                d == pow2((k - 52) as nat),
            decreases e - k,
        {
            proof {
                lemma_pow2_unfold((k - 52 + 1) as nat);
                lemma_pow2_strictly_increases((k - 52 + 1) as nat, 12);
                lemma2_to64();
            }
            d = d * 2;
            k = k + 1;
        }
        proof {
            lemma_pow2_adds(53, (e - 52) as nat);
            lemma_pow2_pos((e - 52) as nat);
            lemma_pow2_strictly_increases((e - 52) as nat, 12);
            lemma_multiply_divide_lt(a as int, d as int, pow2(53) as int);
            lemma2_to64();
            lemma2_to64_rest();
        }
        let q = a / d;
        let rem = a % d;
        let up = rem * 2 > d || (rem * 2 == d && q % 2 == 1);
        let q2 = if up {
            q + 1
        } else {
            q
        };
        (e + 1022) * 0x10_0000_0000_0000 + q2
    }
}

/// The bit pattern of the double nearest to `x` (see `double_bits_of_int`).
pub fn double_bits_of_i64(x: i64) -> (r: u64)
    ensures
        r == double_bits_of_int(x as int),
{
    if x == 0 {
        0
    } else if x > 0 {
        double_bits_of_u64(x as u64)
    } else {
        let a: u64 = ((-(x + 1)) as u64) + 1;
        0x8000_0000_0000_0000 + double_bits_of_u64(a)
    }
}

/// A JSON number read as a floating-point value (see `number_as_double`).
pub fn to_double(n: JsonNumber) -> (r: JsonNumber)
    ensures
        r == number_as_double(n),
{
    match n {
        JsonNumber::PosInt(u) => {
            if u == 0 {
                JsonNumber::Float(0)
            } else {
                JsonNumber::Float(double_bits_of_u64(u))
            }
        },
        JsonNumber::NegInt(i) => JsonNumber::Float(double_bits_of_i64(i)),
        JsonNumber::Float(b) => JsonNumber::Float(b),
    }
}

} // verus!
