//! Scaling a footprint by the display's scale factor.
//!
//! The factor is handed over as the bit pattern of the `f64` the display
//! reports (see `f64::to_bits`). Each dimension is scaled as
//! `(w as f64 * factor).round_ties_even() as u32` computes it: the product is
//! rounded to an `f64` (53 significant bits, ties to even), that `f64` is
//! rounded to the nearest integer, ties to even, and the cast saturates a
//! result beyond `u32` and turns a negative or NaN result into 0.

use vstd::prelude::*;
use vstd::arithmetic::power2::{
    lemma2_to64, lemma2_to64_rest, lemma_pow2_adds, lemma_pow2_pos,
    lemma_pow2_strictly_increases, lemma_pow2_unfold, pow2,
};
use vstd::arithmetic::div_mod::{
    lemma_basic_div, lemma_div_by_multiple, lemma_fundamental_div_mod, lemma_mod_multiples_basic,
    lemma_mod_pos_bound, lemma_small_mod,
};
use vstd::arithmetic::mul::lemma_mul_is_associative;
use crate::shape::{footprint_fits, footprint_height, footprint_width, Shape, ShapeSize};

verus! {

/// Bit pattern of the `f64` value 1.0.
pub const ONE_BITS: u64 = 0x3FF0000000000000;

/// The biased exponent field of an `f64` bit pattern.
pub open spec fn exponent_field(bits: u64) -> nat {
    ((bits as nat) / 0x10000000000000) % 0x800
}

/// The fraction field of an `f64` bit pattern.
pub open spec fn fraction_field(bits: u64) -> nat {
    (bits as nat) % 0x10000000000000
}

/// The sign bit of an `f64` bit pattern is set.
pub open spec fn sign_set(bits: u64) -> bool {
    bits >= 0x8000000000000000
}

pub open spec fn is_nan(bits: u64) -> bool {
    exponent_field(bits) == 0x7ff && fraction_field(bits) != 0
}

pub open spec fn is_infinite(bits: u64) -> bool {
    exponent_field(bits) == 0x7ff && fraction_field(bits) == 0
}

/// The integer significand `m` of a finite `f64`, whose value is
/// `m * 2^binary_exponent(bits)`.
pub open spec fn significand(bits: u64) -> nat {
    if exponent_field(bits) == 0 {
        fraction_field(bits)
    } else {
        fraction_field(bits) + 0x10000000000000
    }
}

pub open spec fn binary_exponent(bits: u64) -> int {
    if exponent_field(bits) == 0 {
        -1074
    } else {
        exponent_field(bits) - 1075
    }
}

/// `n / d` rounded to the nearest integer, ties to the even one.
pub open spec fn round_half_even(n: nat, d: nat) -> nat
    recommends
        d > 0,
{
    let q = n / d;
    let r = n % d;
    if 2 * r < d {
        q
    } else if 2 * r > d {
        q + 1
    } else if q % 2 == 0 {
        q
    } else {
        q + 1
    }
}

/// Number of binary digits of `n` (0 for 0).
pub open spec fn bit_len(n: nat) -> nat
    decreases n,
{
    if n == 0 {
        0
    } else {
        1 + bit_len(n / 2)
    }
}

/// Exponent of the last significant bit kept when the value `n * 2^e` is
/// rounded to an `f64`: 53 significant bits, but no bit below `2^-1074`.
pub open spec fn f64_ulp_exponent(n: nat, e: int) -> int {
    let u = e + bit_len(n) - 53;
    if u < -1074 {
        -1074
    } else {
        u
    }
}

/// The `f64` nearest to `n * 2^e`, ties to even, as a pair `(m, u)` whose
/// value is `m * 2^u`.
pub open spec fn f64_round(n: nat, e: int) -> (nat, int) {
    let u = f64_ulp_exponent(n, e);
    if u <= e {
        (n, e)
    } else {
        (round_half_even(n, pow2((u - e) as nat)), u)
    }
}

/// The integer nearest to `m * 2^u`, ties to even.
pub open spec fn nearest_integer(m: nat, u: int) -> nat {
    if u >= 0 {
        m * pow2(u as nat)
    } else {
        round_half_even(m, pow2((-u) as nat))
    }
}

/// `w` times the non-negative finite `f64` `bits`, computed in `f64` and then
/// rounded to an integer, ties to even.
pub open spec fn rounded_product(w: nat, bits: u64) -> nat {
    let p = f64_round(w * significand(bits), binary_exponent(bits));
    nearest_integer(p.0, p.1)
}

/// An integer cast to `u32` with saturation.
pub open spec fn saturate(v: nat) -> u32 {
    if v > u32::MAX {
        u32::MAX
    } else {
        v as u32
    }
}

/// A pixel extent scaled by the `f64` factor `bits`.
pub open spec fn scaled_extent(w: u32, bits: u64) -> u32 {
    if sign_set(bits) || is_nan(bits) {
        0
    } else if is_infinite(bits) {
        if w == 0 {
            0
        } else {
            u32::MAX
        }
    } else {
        saturate(rounded_product(w as nat, bits))
    }
}

proof fn lemma_bit_len_bound(n: nat, p: nat)
    requires
        n < pow2(p),
    ensures
        bit_len(n) <= p,
    decreases p,
{
    if n > 0 {
        if p == 0 {
            lemma2_to64();
        } else {
            lemma_pow2_unfold(p);
            lemma_bit_len_bound(n / 2, (p - 1) as nat);
        }
    }
}

proof fn lemma_pow2_85()
    ensures
        pow2(85) == 0x2000000000000000000000,
        pow2(32) == 0x100000000,
{
    lemma2_to64();
    lemma_pow2_adds(64, 21);
}

/// `2^k` for a `k` small enough to fit.
fn pow2_u128(k: u64) -> (r: u128)
    requires
        k <= 85,
    ensures
        r == pow2(k as nat),
{
    proof {
        lemma_pow2_85();
        lemma2_to64();
    }
    let mut d: u128 = 1;
    let mut i: u64 = 0;
    while i < k
        invariant
            i <= k <= 85,
            d == pow2(i as nat),
            pow2(85) == 0x2000000000000000000000,
        decreases k - i,
    {
        proof {
            lemma_pow2_unfold((i + 1) as nat);
            lemma_pow2_strictly_increases(i as nat, 85);
        }
        d = d * 2;
        i = i + 1;
    }
    d
}

/// Number of binary digits of `n`.
fn bit_length(n: u128) -> (r: u64)
    requires
        n < 0x2000000000000000000000,
    ensures
        r == bit_len(n as nat),
        r <= 85,
{
    proof {
        lemma_pow2_85();
        lemma_bit_len_bound(n as nat, 85);
    }
    let mut x: u128 = n;
    let mut l: u64 = 0;
    while x > 0
        invariant
            bit_len(n as nat) == l + bit_len(x as nat),
            bit_len(n as nat) <= 85,
        decreases x,
    {
        x = x / 2;
        l = l + 1;
    }
    l
}

/// `n / d` rounded to the nearest integer, ties to even.
fn round_half_even_u128(n: u128, d: u128) -> (r: u128)
    requires
        0 < d <= 0x2000000000000000000000,
        n < 0x2000000000000000000000,
    ensures
        r == round_half_even(n as nat, d as nat),
{
    let q = n / d;
    let r = n % d;
    if 2 * r < d {
        q
    } else if 2 * r > d {
        q + 1
    } else if q % 2 == 0 {
        q
    } else {
        q + 1
    }
}

/// The integer nearest to `m * 2^u`, ties to even, saturated to `u32`.
fn nearest_u32(m: u128, u: i64) -> (r: u32)
    requires
        m < 0x2000000000000000000000,
        -1074 <= u <= 1024,
    ensures
        r == saturate(nearest_integer(m as nat, u as int)),
{
    proof {
        lemma_pow2_85();
    }
    let v: u128 = if u >= 0 {
        if m == 0 {
            0
        } else if u >= 32 {
            proof {
                if u > 32 {
                    lemma_pow2_strictly_increases(32, u as nat);
                }
                assert(m * pow2(u as nat) >= pow2(u as nat)) by (nonlinear_arith)
                    requires
                        m >= 1,
                ;
            }
            0x100000000
        } else {
            let d = pow2_u128(u as u64);
            proof {
                if u < 32 {
                    lemma_pow2_strictly_increases(u as nat, 32);
                }
                assert((m as int) * (d as int) < 0x2000000000000000000000 * 0x100000000)
                    by (nonlinear_arith)
                    requires
                        m < 0x2000000000000000000000,
                        d <= 0x100000000,
                ;
            }
            m * d
        }
    } else {
        let k: u64 = (0 - u) as u64;
        if k >= 86 {
            proof {
                lemma_pow2_unfold(86);
                if k > 86 {
                    lemma_pow2_strictly_increases(86, k as nat);
                }
                lemma_basic_div(m as int, pow2(k as nat) as int);
                lemma_small_mod(m as nat, pow2(k as nat));
            }
            0
        } else {
            let d = pow2_u128(k);
            proof {
                lemma_pow2_pos(k as nat);
                if k < 85 {
                    lemma_pow2_strictly_increases(k as nat, 85);
                }
            }
            round_half_even_u128(m, d)
        }
    };
    if v > u32::MAX as u128 {
        u32::MAX
    } else {
        v as u32
    }
}

/// Scales one extent.
fn scale_extent(w: u32, bits: u64) -> (r: u32)
    ensures
        r == scaled_extent(w, bits),
{
    let exp: u64 = (bits / 0x10000000000000) % 0x800;
    let frac: u64 = bits % 0x10000000000000;
    if bits >= 0x8000000000000000 || (exp == 0x7ff && frac != 0) {
        return 0;
    }
    if exp == 0x7ff {
        return if w == 0 {
            0
        } else {
            u32::MAX
        };
    }
    let sig: u64 = if exp == 0 {
        frac
    } else {
        frac + 0x10000000000000
    };
    let e: i64 = if exp == 0 {
        -1074
    } else {
        exp as i64 - 1075
    };
    proof {
        lemma_pow2_85();
        assert((w as int) * (sig as int) < 0x2000000000000000000000) by (nonlinear_arith)
            requires
                w <= 0xffffffff,
                sig < 0x20000000000000,
        ;
    }
    let n: u128 = w as u128 * sig as u128;
    let l = bit_length(n);
    let u0: i64 = e + l as i64 - 53;
    let u: i64 = if u0 < -1074 {
        -1074
    } else {
        u0
    };
    let (m, p) = if u <= e {
        (n, e)
    } else {
        let k: u64 = (u - e) as u64;
        let d = pow2_u128(k);
        proof {
            lemma_pow2_unfold(1);
            lemma2_to64();
            if k > 1 {
                lemma_pow2_strictly_increases(1, k as nat);
            }
            lemma_pow2_strictly_increases(k as nat, 85);
            lemma_fundamental_div_mod(n as int, d as int);
            lemma_mod_pos_bound(n as int, d as int);
            let q = n as int / d as int;
            assert(q < 0x1000000000000000000000) by (nonlinear_arith)
                requires
                    n as int == d as int * q + n as int % d as int,
                    0 <= n as int % d as int,
                    d >= 2,
                    n < 0x2000000000000000000000,
            ;
        }
        (round_half_even_u128(n, d), u)
    };
    nearest_u32(m, p)
}

impl ShapeSize {
    /// Scales both dimensions by the display factor whose `f64` bit pattern
    /// is `factor_bits`, each rounded on its own.
    pub fn scale(&mut self, factor_bits: u64)
        ensures
            final(self).width == scaled_extent(old(self).width, factor_bits),
            final(self).height == scaled_extent(old(self).height, factor_bits),
    {
        self.width = scale_extent(self.width, factor_bits);
        self.height = scale_extent(self.height, factor_bits);
    }
}

/// `(a * 2^j * 2^i)` divided by `2^i`, rounded, is exactly `a * 2^j`.
proof fn lemma_round_exact(a: nat, i: nat, j: nat)
    ensures
        round_half_even(a * pow2(i + j), pow2(i)) == a * pow2(j),
{
    lemma_pow2_pos(i);
    lemma_pow2_adds(j, i);
    lemma_mul_is_associative(a as int, pow2(j) as int, pow2(i) as int);
    lemma_div_by_multiple((a * pow2(j)) as int, pow2(i) as int);
    lemma_mod_multiples_basic((a * pow2(j)) as int, pow2(i) as int);
}

/// Scaling by 1.0 leaves an extent as it is.
proof fn lemma_scale_extent_by_one(w: u32)
    ensures
        scaled_extent(w, ONE_BITS) == w,
{
    lemma2_to64_rest();
    lemma_pow2_85();
    assert(exponent_field(ONE_BITS) == 1023);
    assert(fraction_field(ONE_BITS) == 0);
    let n: nat = (w * pow2(52)) as nat;
    assert(significand(ONE_BITS) == pow2(52));
    assert(binary_exponent(ONE_BITS) == -52);
    assert(n < 0x2000000000000000000000) by (nonlinear_arith)
        requires
            n == w * pow2(52),
            w <= 0xffffffff,
            pow2(52) == 0x10000000000000,
    ;
    lemma_bit_len_bound(n, 85);
    let u = f64_ulp_exponent(n, -52int);
    if u <= -52 {
        lemma_round_exact(w as nat, 52, 0);
        lemma2_to64();
        assert(f64_round(n, -52int) == (n, -52int));
        assert(nearest_integer(n, -52int) == w);
    } else {
        // the product keeps 53 bits: rounding it to the f64 grid, then to
        // an integer, only divides out powers of two
        let k = (u + 52) as nat;
        assert(k <= 52);
        assert(52 == k + (52 - k) as nat);
        lemma_round_exact(w as nat, k, (52 - k) as nat);
        let m: nat = (w * pow2((52 - k) as nat)) as nat;
        assert(f64_round(n, -52int) == (m, u));
        assert(-u == (52 - k) as nat);
        lemma_round_exact(w as nat, (52 - k) as nat, 0);
        lemma2_to64();
        assert(nearest_integer(m, u) == w);
    }
}

/// Scaling a footprint by 1.0 gives the identical footprint.
pub proof fn scaling_by_one_is_identity(s: ShapeSize)
    ensures
        (ShapeSize {
            width: scaled_extent(s.width, ONE_BITS),
            height: scaled_extent(s.height, ONE_BITS),
        }) == s,
{
    lemma_scale_extent_by_one(s.width);
    lemma_scale_extent_by_one(s.height);
}

/// The pixel size of the overlay window for `shape` on a display with scale
/// factor `factor_bits`: the footprint, scaled unless the factor is 1.0.
pub fn window_size(shape: &Shape, factor_bits: u64) -> (r: ShapeSize)
    requires
        footprint_fits(*shape),
    ensures
        r.width == scaled_extent(footprint_width(*shape) as u32, factor_bits),
        r.height == scaled_extent(footprint_height(*shape) as u32, factor_bits),
{
    let mut size = shape.size();
    if factor_bits != ONE_BITS {
        size.scale(factor_bits);
    } else {
        proof {
            scaling_by_one_is_identity(size);
        }
    }
    size
}

} // verus!
