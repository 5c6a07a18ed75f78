//! Floating-point numbers by their bit patterns.
//!
//! A scripting number is a double-precision number. The marshaling core
//! never computes with such a number: it converts it to and from the
//! native integer types and the single-precision format. These conversions
//! are stated over the mathematical meaning of the bit pattern (sign,
//! significand and power of two) and carried out on the bits.

use vstd::prelude::*;
use vstd::arithmetic::power2::{pow2, lemma2_to64, lemma2_to64_rest, lemma_pow2_strictly_increases, lemma_pow2_pos, lemma_pow2_adds};
use vstd::arithmetic::div_mod::{lemma_basic_div, lemma_fundamental_div_mod, lemma_div_multiples_vanish, lemma_mod_multiples_basic};
use vstd::bits::{lemma_u64_shl_is_mul, lemma_u64_shr_is_div};
use crate::types::{IntegerSign, IntegerSize, IntegerType};

verus! {

/// A double-precision number (IEEE 754 binary64), held as its bit pattern:
/// one sign bit, eleven exponent bits, fifty-two fraction bits.
#[derive(Debug, Clone, Copy, PartialEq, Eq, Structural)]
pub struct Double {
    pub bits: u64,
}

impl Double {
    /// Whether the sign bit is set.
    pub open spec fn negative(self) -> bool {
        self.bits >= 0x8000_0000_0000_0000
    }

    /// The exponent field.
    pub open spec fn exponent(self) -> nat {
        ((self.bits / 0x10_0000_0000_0000) % 0x800) as nat
    }

    /// The fraction field.
    pub open spec fn fraction(self) -> nat {
        (self.bits % 0x10_0000_0000_0000) as nat
    }

    pub open spec fn is_nan(self) -> bool {
        self.exponent() == 0x7ff && self.fraction() != 0
    }

    pub open spec fn is_infinite(self) -> bool {
        self.exponent() == 0x7ff && self.fraction() == 0
    }

    pub open spec fn is_finite(self) -> bool {
        self.exponent() < 0x7ff
    }

    /// The significand of a finite number as an integer: the fraction, with
    /// the implicit leading bit unless the number is subnormal.
    pub open spec fn significand(self) -> nat {
        if self.exponent() == 0 {
            self.fraction()
        } else {
            0x10_0000_0000_0000 + self.fraction()
        }
    }

    /// The power of two by which the significand of a finite number is
    /// scaled: the magnitude of the number is `significand × 2^scale`.
    pub open spec fn scale(self) -> int {
        if self.exponent() == 0 {
            -1074
        } else {
            self.exponent() - 1075
        }
    }

    /// The integer part of the magnitude of a finite number.
    pub open spec fn magnitude(self) -> nat {
        if self.scale() >= 0 {
            self.significand() * pow2(self.scale() as nat)
        } else {
            self.significand() / pow2((-self.scale()) as nat)
        }
    }

    /// A finite number rounded toward zero.
    pub open spec fn truncated(self) -> int {
        if self.negative() {
            -(self.magnitude() as int)
        } else {
            self.magnitude() as int
        }
    }

    /// Whether the number is finite and has no fractional part.
    pub open spec fn is_integral(self) -> bool {
        self.is_finite() && (self.scale() >= 0 || self.significand() % pow2(
            (-self.scale()) as nat,
        ) == 0)
    }

    /// The number converted to an integer type of range `min..=max`: not
    /// a number gives zero, anything else is rounded toward zero and then
    /// brought into the range.
    pub open spec fn cast(self, min: int, max: int) -> int {
        if self.is_nan() {
            0
        } else if self.is_infinite() {
            if self.negative() {
                min
            } else {
                max
            }
        } else if self.truncated() < min {
            min
        } else if self.truncated() > max {
            max
        } else {
            self.truncated()
        }
    }

    pub fn from_bits(bits: u64) -> (r: Self)
        ensures
            r.bits == bits,
    {
        Double { bits }
    }

    pub fn to_bits(self) -> (r: u64)
        ensures
            r == self.bits,
    {
        self.bits
    }

    /// Positive zero.
    pub fn zero() -> (r: Self)
        ensures
            r.bits == 0,
    {
        Double { bits: 0 }
    }

    /// Converts to the integer type that `ty` describes.
    pub fn to_integer(self, ty: IntegerType) -> (r: i128)
        ensures
            r == self.cast(ty.min(), ty.max()),
            ty.holds(r as int),
    {
        let (min, max) = integer_bounds(ty);
        self.saturate(min, max)
    }

    fn saturate(self, min: i128, max: i128) -> (r: i128)
        requires
            -0x8000_0000_0000_0000 <= min <= 0 <= max <= 0xffff_ffff_ffff_ffff,
        ensures
            r == self.cast(min as int, max as int),
            min <= r <= max,
    {
        let bits = self.bits;
        let e: u64 = (bits >> 52) & 0x7ff;
        let f: u64 = bits & 0xf_ffff_ffff_ffff;
        let negative = (bits >> 63) == 1;
        proof {
            assert(((bits >> 52) & 0x7ff) == (bits / 0x10_0000_0000_0000) % 0x800) by (bit_vector);
            assert((bits & 0xf_ffff_ffff_ffff) == bits % 0x10_0000_0000_0000) by (bit_vector);
            assert(((bits >> 63) == 1) == (bits >= 0x8000_0000_0000_0000)) by (bit_vector);
            lemma2_to64();
            lemma2_to64_rest();
        }
        if e == 0x7ff {
            if f != 0 {
                0
            } else if negative {
                min
            } else {
                max
            }
        } else if e < 1023 {
            proof {
                let k = (-self.scale()) as nat;
                assert(k >= 53);
                if k > 53 {
                    lemma_pow2_strictly_increases(53, k);
                }
                lemma_basic_div(self.significand() as int, pow2(k) as int);
            }
            0
        } else if e > 1086 {
            proof {
                let s = self.scale() as nat;
                assert(s >= 12);
                if s > 12 {
                    lemma_pow2_strictly_increases(12, s);
                }
                let m = self.significand();
                let p = pow2(s);
                assert(m * p >= 0x1_0000_0000_0000_0000) by (nonlinear_arith)
                    requires
                        m >= 0x10_0000_0000_0000,
                        p >= 0x1000,
                ;
            }
            if negative {
                min
            } else {
                max
            }
        } else {
            let m: u64 = f | 0x10_0000_0000_0000;
            assert(m == f + 0x10_0000_0000_0000) by (bit_vector)
                requires
                    m == f | 0x10_0000_0000_0000,
                    f < 0x10_0000_0000_0000,
            ;
            let mag: u64 = if e >= 1075 {
                let s: u64 = e - 1075;
                proof {
                    if s < 11 {
                        lemma_pow2_strictly_increases(s as nat, 11);
                    }
                    let p = pow2(s as nat);
                    assert(m * p <= 0xffff_ffff_ffff_ffff) by (nonlinear_arith)
                        requires
                            m < 0x20_0000_0000_0000,
                            p <= 0x800,
                    ;
                    lemma_u64_shl_is_mul(m, s);
                }
                m << s
            } else {
                let k: u64 = 1075 - e;
                proof {
                    lemma_u64_shr_is_div(m, k);
                }
                m >> k
            };
            assert(mag == self.magnitude());
            let v: i128 = if negative {
                -(mag as i128)
            } else {
                mag as i128
            };
            if v < min {
                min
            } else if v > max {
                max
            } else {
                v
            }
        }
    }
}

/// The position of the highest set bit of a positive number; zero for zero.
pub open spec fn floor_log2(n: nat) -> nat
    decreases n,
{
    if n <= 1 {
        0
    } else {
        1 + floor_log2(n / 2)
    }
}

/// A positive number lies between the power of two at its highest set bit
/// and the next one.
pub proof fn lemma_floor_log2_bounds(n: nat)
    requires
        n >= 1,
    ensures
        pow2(floor_log2(n)) <= n < pow2(floor_log2(n) + 1),
    decreases n,
{
    lemma2_to64();
    if n > 1 {
        lemma_floor_log2_bounds(n / 2);
        let p = floor_log2(n / 2);
        vstd::arithmetic::power2::lemma_pow2_unfold(p + 1);
        vstd::arithmetic::power2::lemma_pow2_unfold(p + 2);
    }
}

/// The highest set bit is the only position whose power of two bounds the
/// number in this way.
pub proof fn lemma_floor_log2_unique(n: nat, p: nat)
    requires
        pow2(p) <= n < pow2(p + 1),
    ensures
        floor_log2(n) == p,
{
    lemma_pow2_pos(p);
    lemma_floor_log2_bounds(n);
    let q = floor_log2(n);
    if q < p {
        if q + 1 < p {
            lemma_pow2_strictly_increases(q + 1, p);
        }
    } else if q > p {
        if p + 1 < q {
            lemma_pow2_strictly_increases(p + 1, q);
        }
    }
}

/// Finds the highest set bit.
fn highest_bit(n: u64) -> (p: u64)
    requires
        n >= 1,
    ensures
        p == floor_log2(n as nat),
        p <= 63,
        pow2(p as nat) <= n < pow2(p as nat + 1),
{
    proof {
        lemma_floor_log2_bounds(n as nat);
        lemma2_to64_rest();
        if floor_log2(n as nat) > 64 {
            lemma_pow2_strictly_increases(64, floor_log2(n as nat));
        }
    }
    let mut p: u64 = 0;
    let mut t: u64 = n;
    while t > 1
        invariant
            t >= 1,
            p + floor_log2(t as nat) == floor_log2(n as nat),
            floor_log2(n as nat) <= 63,
        decreases t,
    {
        t = t / 2;
        p = p + 1;
    }
    p
}

impl Double {
    /// The bit pattern of the double nearest to the natural number `n`,
    /// the even one of two that are equally near.
    pub open spec fn nearest_to_nat(n: nat) -> nat {
        if n == 0 {
            0
        } else {
            let p = floor_log2(n);
            if p <= 52 {
                ((1023 + p) * 0x10_0000_0000_0000 + (n * pow2((52 - p) as nat)
                    - 0x10_0000_0000_0000)) as nat
            } else {
                let q = (p - 52) as nat;
                let m = n / pow2(q);
                let rest = n % pow2(q);
                let half = pow2((q - 1) as nat);
                let up: nat = if rest > half || (rest == half && m % 2 == 1) {
                    1
                } else {
                    0
                };
                ((1023 + p) * 0x10_0000_0000_0000 + (m - 0x10_0000_0000_0000) + up) as nat
            }
        }
    }

    /// The bit pattern of the double nearest to the integer `v`.
    pub open spec fn nearest(v: int) -> nat {
        if v < 0 {
            0x8000_0000_0000_0000 + Self::nearest_to_nat((-v) as nat)
        } else {
            Self::nearest_to_nat(v as nat)
        }
    }

    /// The double nearest to an unsigned integer.
    pub fn from_u64(n: u64) -> (r: Self)
        ensures
            r.bits == Self::nearest_to_nat(n as nat),
            r.bits < 0x8000_0000_0000_0000,
    {
        if n == 0 {
            return Double { bits: 0 };
        }
        let p = highest_bit(n);
        proof {
            lemma2_to64();
            lemma2_to64_rest();
        }
        if p <= 52 {
            let k: u64 = 52 - p;
            proof {
                lemma_pow2_adds(p as nat + 1, k as nat);
                lemma_pow2_adds(p as nat, k as nat);
                let a = pow2(p as nat);
                let b = pow2(p as nat + 1);
                let c = pow2(k as nat);
                lemma_pow2_pos(k as nat);
                assert(a * c <= n * c < b * c) by (nonlinear_arith)
                    requires
                        a <= n < b,
                        c > 0,
                ;
                lemma_u64_shl_is_mul(n, k);
            }
            let m: u64 = n << k;
            Double { bits: (1023 + p) * 0x10_0000_0000_0000 + (m - 0x10_0000_0000_0000) }
        } else {
            let q: u64 = p - 52;
            proof {
                lemma_u64_shr_is_div(n, q);
                lemma_pow2_adds(52, q as nat);
                lemma_pow2_adds(53, q as nat);
                lemma_pow2_pos(q as nat);
                let c = pow2(q as nat) as int;
                lemma_fundamental_div_mod(n as int, c);
                let m = n as int / c;
                let r = n as int % c;
                assert(0 <= r < c) by {
                    vstd::arithmetic::div_mod::lemma_mod_bound(n as int, c);
                }
                assert(0x10_0000_0000_0000 <= m < 0x20_0000_0000_0000) by (nonlinear_arith)
                    requires
                        n == c * m + r,
                        0 <= r < c,
                        0x10_0000_0000_0000 * c <= n < 0x20_0000_0000_0000 * c,
                ;
                assert(c * m == m * c) by (nonlinear_arith);
                lemma_u64_shl_is_mul((n >> q), q);
                lemma_u64_shl_is_mul(1, (q - 1) as u64);
                if q - 1 < 11 {
                    lemma_pow2_strictly_increases((q - 1) as nat, 11);
                }
            }
            let m: u64 = n >> q;
            let rest: u64 = n - (m << q);
            let half: u64 = 1u64 << (q - 1);
            let up: u64 = if rest > half || (rest == half && m % 2 == 1) {
                1
            } else {
                0
            };
            Double { bits: (1023 + p) * 0x10_0000_0000_0000 + (m - 0x10_0000_0000_0000) + up }
        }
    }

    /// The double nearest to a signed integer.
    pub fn from_i64(v: i64) -> (r: Self)
        ensures
            r.bits == Self::nearest(v as int),
    {
        if v < 0 {
            let n: u64 = if v == i64::MIN {
                0x8000_0000_0000_0000
            } else {
                (-v) as u64
            };
            let d = Self::from_u64(n);
            Double { bits: 0x8000_0000_0000_0000 + d.bits }
        } else {
            Self::from_u64(v as u64)
        }
    }
}

/// The bit pattern of a double is its sign bit, exponent field and
/// fraction field side by side.
pub proof fn lemma_double_fields(d: Double)
    ensures
        d.bits == (if d.negative() {
            0x8000_0000_0000_0000int
        } else {
            0
        }) + d.exponent() * 0x10_0000_0000_0000 + d.fraction(),
        d.fraction() < 0x10_0000_0000_0000,
        d.exponent() < 0x800,
{
    let bits = d.bits;
    assert(bits == (if bits >= 0x8000_0000_0000_0000 {
        0x8000_0000_0000_0000u64
    } else {
        0
    }) + ((bits / 0x10_0000_0000_0000) % 0x800) * 0x10_0000_0000_0000 + bits
        % 0x10_0000_0000_0000) by (bit_vector);
    assert(((bits / 0x10_0000_0000_0000) % 0x800) * 0x10_0000_0000_0000 + bits
        % 0x10_0000_0000_0000 <= 0x7fff_ffff_ffff_ffff) by (bit_vector);
}

/// The double nearest to the integer part of an integral double is that
/// double, the sign apart.
pub proof fn lemma_nearest_to_magnitude(d: Double)
    requires
        d.is_integral(),
    ensures
        Double::nearest_to_nat(d.magnitude()) == d.exponent() * 0x10_0000_0000_0000
            + d.fraction(),
        d.magnitude() == 0 ==> d.exponent() == 0 && d.fraction() == 0,
{
    lemma2_to64();
    lemma2_to64_rest();
    lemma_double_fields(d);
    let e = d.exponent();
    let f = d.fraction();
    let m = d.significand();
    if e < 1075 {
        let k = (-d.scale()) as nat;
        let c = pow2(k);
        lemma_pow2_pos(k);
        if k > 52 {
            if k > 53 {
                lemma_pow2_strictly_increases(53, k);
            }
            vstd::arithmetic::div_mod::lemma_small_mod(m, c);
            lemma_basic_div(m as int, c as int);
        } else {
            let n = m / c;
            lemma_fundamental_div_mod(m as int, c as int);
            assert(m == n * c) by (nonlinear_arith)
                requires
                    m == c * n + 0,
            ;
            let p = (52 - k) as nat;
            lemma_pow2_adds(p, k);
            lemma_pow2_adds(p + 1, k);
            let a = pow2(p);
            let b = pow2(p + 1);
            assert(a <= n < b) by (nonlinear_arith)
                requires
                    a * c <= n * c < b * c,
                    c > 0,
            ;
            lemma_floor_log2_unique(n, p);
            lemma_pow2_pos(p);
        }
    } else {
        let s = d.scale() as nat;
        let c = pow2(s);
        let n = m * c;
        lemma_pow2_pos(s);
        lemma_pow2_adds(52, s);
        lemma_pow2_adds(53, s);
        let a = pow2(52);
        let b = pow2(53);
        assert(a * c <= m * c < b * c) by (nonlinear_arith)
            requires
                a <= m < b,
                c > 0,
        ;
        lemma_floor_log2_unique(n, 52 + s);
        if s > 0 {
            lemma_div_multiples_vanish(m as int, c as int);
            lemma_mod_multiples_basic(m as int, c as int);
            lemma_pow2_pos((s - 1) as nat);
        } else {
            assert(n == m) by (nonlinear_arith)
                requires
                    n == m * c,
                    c == 1,
            ;
        }
    }
}

/// A double without fractional part, other than negative zero, that an
/// integer type holds comes back unchanged from the conversion to that
/// type and back.
pub proof fn lemma_integer_round_trip(d: Double, ty: IntegerType)
    requires
        d.is_integral(),
        d.bits != 0x8000_0000_0000_0000,
        ty.holds(d.truncated()),
    ensures
        Double::nearest(d.cast(ty.min(), ty.max())) == d.bits,
{
    lemma_double_fields(d);
    lemma_nearest_to_magnitude(d);
}

/// The fields of a double are what its bit pattern was put together from.
pub proof fn lemma_fields_of_bits(negative: bool, e: nat, f: nat)
    requires
        e < 0x800,
        f < 0x10_0000_0000_0000,
    ensures
        (if negative {
            0x8000_0000_0000_0000int
        } else {
            0
        }) + e * 0x10_0000_0000_0000 + f <= u64::MAX,
        ({
            let d = Double {
                bits: ((if negative {
                    0x8000_0000_0000_0000int
                } else {
                    0
                }) + e * 0x10_0000_0000_0000 + f) as u64,
            };
            d.negative() == negative && d.exponent() == e && d.fraction() == f
        }),
{
    let unit = 0x10_0000_0000_0000int;
    let x = e * unit + f;
    assert(x < 0x800 * unit) by (nonlinear_arith)
        requires
            x == e * unit + f,
            e < 0x800,
            f < unit,
            unit > 0,
    ;
    let sign: int = if negative {
        0x800
    } else {
        0
    };
    let bits = sign * unit + x;
    assert(bits == (sign + e) * unit + f) by (nonlinear_arith)
        requires
            bits == sign * unit + e * unit + f,
    ;
    vstd::arithmetic::div_mod::lemma_fundamental_div_mod_converse(
        bits,
        unit,
        sign + e as int,
        f as int,
    );
    vstd::arithmetic::div_mod::lemma_fundamental_div_mod_converse(
        sign + e as int,
        0x800,
        if negative {
            1
        } else {
            0
        },
        e as int,
    );
}

/// A natural number below 2 to the 53 is a double: the double nearest to
/// it has no fractional part and is the number itself.
pub proof fn lemma_nearest_is_exact(n: nat)
    requires
        n < 0x20_0000_0000_0000,
    ensures
        Double::nearest_to_nat(n) <= 0x7fff_ffff_ffff_ffff,
        ({
            let d = Double { bits: Double::nearest_to_nat(n) as u64 };
            d.is_integral() && !d.negative() && d.magnitude() == n
        }),
{
    lemma2_to64();
    lemma2_to64_rest();
    if n == 0 {
        lemma_fields_of_bits(false, 0, 0);
        lemma_pow2_pos(1074);
        lemma_basic_div(0, pow2(1074) as int);
        vstd::arithmetic::div_mod::lemma_small_mod(0, pow2(1074));
    } else {
        let p = floor_log2(n);
        lemma_floor_log2_bounds(n);
        if p > 52 {
            if p > 53 {
                lemma_pow2_strictly_increases(53, p);
            }
        }
        let k = (52 - p) as nat;
        let c = pow2(k);
        lemma_pow2_pos(k);
        lemma_pow2_adds(p, k);
        lemma_pow2_adds(p + 1, k);
        let a = pow2(p);
        let b = pow2(p + 1);
        let m = n * c;
        assert(a * c <= n * c < b * c) by (nonlinear_arith)
            requires
                a <= n < b,
                c > 0,
        ;
        let e = 1023 + p;
        let f = (m - 0x10_0000_0000_0000) as nat;
        lemma_fields_of_bits(false, e, f);
        lemma_div_multiples_vanish(n as int, c as int);
        lemma_mod_multiples_basic(n as int, c as int);
        if k == 0 {
            assert(m == n) by (nonlinear_arith)
                requires
                    m == n * c,
                    c == 1,
            ;
        }
    }
}

/// An integer of magnitude below 2 to the 53 is a double: the double
/// nearest to it, rounded toward zero, is the integer itself.
pub proof fn lemma_nearest_truncates_to_itself(v: int)
    requires
        -0x20_0000_0000_0000 < v < 0x20_0000_0000_0000,
    ensures
        Double::nearest(v) <= u64::MAX,
        ({
            let d = Double { bits: Double::nearest(v) as u64 };
            d.is_finite() && d.is_integral() && d.truncated() == v
        }),
{
    let n: nat = if v < 0 {
        (-v) as nat
    } else {
        v as nat
    };
    lemma_nearest_is_exact(n);
    let plain = Double { bits: Double::nearest_to_nat(n) as u64 };
    lemma_double_fields(plain);
    if v < 0 {
        lemma_fields_of_bits(true, plain.exponent(), plain.fraction());
    }
}

/// A single-precision number (IEEE 754 binary32), held as its bit pattern:
/// one sign bit, eight exponent bits, twenty-three fraction bits.
#[derive(Debug, Clone, Copy, PartialEq, Eq, Structural)]
pub struct Single {
    pub bits: u32,
}

impl Single {
    /// Whether the sign bit is set.
    pub open spec fn negative(self) -> bool {
        self.bits >= 0x8000_0000
    }

    /// The exponent field.
    pub open spec fn exponent(self) -> nat {
        ((self.bits / 0x80_0000) % 0x100) as nat
    }

    /// The fraction field.
    pub open spec fn fraction(self) -> nat {
        (self.bits % 0x80_0000) as nat
    }

    pub open spec fn is_nan(self) -> bool {
        self.exponent() == 0xff && self.fraction() != 0
    }

    pub open spec fn is_finite(self) -> bool {
        self.exponent() < 0xff
    }

    /// The significand of a finite number as an integer.
    pub open spec fn significand(self) -> nat {
        if self.exponent() == 0 {
            self.fraction()
        } else {
            0x80_0000 + self.fraction()
        }
    }

    /// The power of two by which the significand of a finite number is
    /// scaled.
    pub open spec fn scale(self) -> int {
        if self.exponent() == 0 {
            -149
        } else {
            self.exponent() - 150
        }
    }

    /// The exponent and fraction fields of the double of the same value.
    /// Not a number stays not a number, as a quiet one.
    pub open spec fn widened_fields(self) -> nat {
        let e = self.exponent();
        let f = self.fraction();
        if e == 0xff {
            if f == 0 {
                0x7ff * 0x10_0000_0000_0000
            } else if f >= 0x40_0000 {
                0x7ff * 0x10_0000_0000_0000 + f * 0x2000_0000
            } else {
                0x7ff * 0x10_0000_0000_0000 + 0x8_0000_0000_0000 + f * 0x2000_0000
            }
        } else if e == 0 {
            if f == 0 {
                0
            } else {
                let p = floor_log2(f);
                ((874 + p) * 0x10_0000_0000_0000 + f * pow2((52 - p) as nat)
                    - 0x10_0000_0000_0000) as nat
            }
        } else {
            (e + 896) * 0x10_0000_0000_0000 + f * 0x2000_0000
        }
    }

    /// The bit pattern of the double of the same value.
    pub open spec fn widened(self) -> nat {
        if self.negative() {
            0x8000_0000_0000_0000 + self.widened_fields()
        } else {
            self.widened_fields()
        }
    }

    pub fn from_bits(bits: u32) -> (r: Self)
        ensures
            r.bits == bits,
    {
        Single { bits }
    }

    pub fn to_bits(self) -> (r: u32)
        ensures
            r == self.bits,
    {
        self.bits
    }

    /// The double of the same value.
    pub fn to_double(self) -> (r: Double)
        ensures
            r.bits == self.widened(),
    {
        let bits = self.bits;
        let e: u64 = ((bits >> 23) & 0xff) as u64;
        let f: u64 = (bits & 0x7f_ffff) as u64;
        let sign: u64 = if (bits >> 31) == 1 {
            0x8000_0000_0000_0000
        } else {
            0
        };
        proof {
            assert(((bits >> 23) & 0xff) == (bits / 0x80_0000) % 0x100) by (bit_vector);
            assert((bits & 0x7f_ffff) == bits % 0x80_0000) by (bit_vector);
            assert(((bits >> 31) == 1) == (bits >= 0x8000_0000)) by (bit_vector);
            lemma2_to64();
            lemma2_to64_rest();
        }
        let fields: u64 = if e == 0xff {
            if f == 0 {
                0x7ff * 0x10_0000_0000_0000
            } else if f >= 0x40_0000 {
                0x7ff * 0x10_0000_0000_0000 + f * 0x2000_0000
            } else {
                0x7ff * 0x10_0000_0000_0000 + 0x8_0000_0000_0000 + f * 0x2000_0000
            }
        } else if e == 0 {
            if f == 0 {
                0
            } else {
                let p = highest_bit(f);
                proof {
                    if p > 22 {
                        if p > 23 {
                            lemma_pow2_strictly_increases(23, p as nat);
                        }
                    }
                }
                let k: u64 = 52 - p;
                proof {
                    lemma_pow2_adds(p as nat + 1, k as nat);
                    lemma_pow2_adds(p as nat, k as nat);
                    let a = pow2(p as nat);
                    let b = pow2(p as nat + 1);
                    let c = pow2(k as nat);
                    lemma_pow2_pos(k as nat);
                    assert(a * c <= f * c < b * c) by (nonlinear_arith)
                        requires
                            a <= f < b,
                            c > 0,
                    ;
                    lemma_u64_shl_is_mul(f, k);
                }
                (874 + p) * 0x10_0000_0000_0000 + ((f << k) - 0x10_0000_0000_0000)
            }
        } else {
            (e + 896) * 0x10_0000_0000_0000 + f * 0x2000_0000
        };
        Double { bits: sign + fields }
    }
}

impl Double {
    /// The exponent and fraction fields of the single nearest to a double,
    /// the even one of two that are equally near. A magnitude beyond the
    /// singles gives infinity; not a number stays not a number.
    pub open spec fn narrowed_fields(self) -> nat {
        let e = self.exponent();
        let f = self.fraction();
        let m = 0x10_0000_0000_0000 + f;
        if e == 0x7ff {
            if f == 0 {
                0x7f80_0000
            } else {
                0x7fc0_0000 + (f / 0x2000_0000) % 0x40_0000
            }
        } else if e >= 1151 {
            0x7f80_0000
        } else if e >= 897 {
            let q = m / 0x2000_0000;
            let rest = m % 0x2000_0000;
            let up: nat = if rest > 0x1000_0000 || (rest == 0x1000_0000 && q % 2 == 1) {
                1
            } else {
                0
            };
            ((e - 896) * 0x80_0000 + (q - 0x80_0000) + up) as nat
        } else if e >= 872 {
            let shift = (926 - e) as nat;
            let q = m / pow2(shift);
            let rest = m % pow2(shift);
            let half = pow2((shift - 1) as nat);
            let up: nat = if rest > half || (rest == half && q % 2 == 1) {
                1
            } else {
                0
            };
            q + up
        } else {
            0
        }
    }

    /// The bit pattern of the single nearest to a double.
    pub open spec fn narrowed(self) -> nat {
        if self.negative() {
            0x8000_0000 + self.narrowed_fields()
        } else {
            self.narrowed_fields()
        }
    }

    /// The single nearest to this double.
    pub fn to_single(self) -> (r: Single)
        ensures
            r.bits == self.narrowed(),
    {
        let bits = self.bits;
        let e: u64 = (bits >> 52) & 0x7ff;
        let f: u64 = bits & 0xf_ffff_ffff_ffff;
        let sign: u32 = if (bits >> 63) == 1 {
            0x8000_0000
        } else {
            0
        };
        proof {
            assert(((bits >> 52) & 0x7ff) == (bits / 0x10_0000_0000_0000) % 0x800) by (bit_vector);
            assert((bits & 0xf_ffff_ffff_ffff) == bits % 0x10_0000_0000_0000) by (bit_vector);
            assert(((bits >> 63) == 1) == (bits >= 0x8000_0000_0000_0000)) by (bit_vector);
            lemma2_to64();
            lemma2_to64_rest();
        }
        let m: u64 = 0x10_0000_0000_0000 + f;
        let fields: u64 = if e == 0x7ff {
            if f == 0 {
                0x7f80_0000
            } else {
                0x7fc0_0000 + (f / 0x2000_0000) % 0x40_0000
            }
        } else if e >= 1151 {
            0x7f80_0000
        } else if e >= 897 {
            let q: u64 = m / 0x2000_0000;
            let rest: u64 = m % 0x2000_0000;
            let up: u64 = if rest > 0x1000_0000 || (rest == 0x1000_0000 && q % 2 == 1) {
                1
            } else {
                0
            };
            (e - 896) * 0x80_0000 + (q - 0x80_0000) + up
        } else if e >= 872 {
            let shift: u64 = 926 - e;
            proof {
                lemma_u64_shr_is_div(m, shift);
                lemma_pow2_pos(shift as nat);
                let c = pow2(shift as nat) as int;
                lemma_fundamental_div_mod(m as int, c);
                assert(c * (m as int / c) == (m as int / c) * c) by (nonlinear_arith);
                vstd::arithmetic::div_mod::lemma_mod_bound(m as int, c);
                if shift > 30 {
                    lemma_pow2_strictly_increases(30, shift as nat);
                }
                let q = m as int / c;
                assert(q < 0x80_0000) by (nonlinear_arith)
                    requires
                        m == c * q + (m as int % c),
                        0 <= m as int % c,
                        c >= 0x4000_0000,
                        m < 0x20_0000_0000_0000,
                ;
                lemma_u64_shl_is_mul((m >> shift), shift);
                lemma_u64_shl_is_mul(1, (shift - 1) as u64);
                if shift - 1 < 63 {
                    lemma_pow2_strictly_increases((shift - 1) as nat, 63);
                }
            }
            let q: u64 = m >> shift;
            let rest: u64 = m - (q << shift);
            let half: u64 = 1u64 << (shift - 1);
            let up: u64 = if rest > half || (rest == half && q % 2 == 1) {
                1
            } else {
                0
            };
            q + up
        } else {
            0
        };
        Single { bits: sign + (fields as u32) }
    }
}

/// The bit pattern of a single is its sign bit, exponent field and
/// fraction field side by side.
pub proof fn lemma_single_fields(s: Single)
    ensures
        s.bits == (if s.negative() {
            0x8000_0000int
        } else {
            0
        }) + s.exponent() * 0x80_0000 + s.fraction(),
        s.fraction() < 0x80_0000,
        s.exponent() < 0x100,
{
    let bits = s.bits;
    assert(bits == (if bits >= 0x8000_0000 {
        0x8000_0000u32
    } else {
        0
    }) + ((bits / 0x80_0000) % 0x100) * 0x80_0000 + bits % 0x80_0000) by (bit_vector);
    assert(((bits / 0x80_0000) % 0x100) * 0x80_0000 + bits % 0x80_0000 <= 0x7fff_ffff)
        by (bit_vector);
}

/// Every single is a double: a single that is a number is widened to a
/// double and narrowed again to itself.
pub proof fn lemma_single_survives_as_double(s: Single)
    requires
        !s.is_nan(),
    ensures
        s.widened() <= u64::MAX,
        (Double { bits: s.widened() as u64 }).narrowed() == s.bits,
{
    lemma2_to64();
    lemma2_to64_rest();
    lemma_single_fields(s);
    let e = s.exponent();
    let f = s.fraction();
    let negative = s.negative();
    if e == 0xff {
        lemma_fields_of_bits(negative, 0x7ff, 0);
    } else if e == 0 {
        if f == 0 {
            lemma_fields_of_bits(negative, 0, 0);
        } else {
            let p = floor_log2(f);
            lemma_floor_log2_bounds(f);
            if p > 22 {
                if p > 23 {
                    lemma_pow2_strictly_increases(23, p);
                }
            }
            let k = (52 - p) as nat;
            let c = pow2(k);
            lemma_pow2_pos(k);
            lemma_pow2_adds(p, k);
            lemma_pow2_adds(p + 1, k);
            let a = pow2(p);
            let b = pow2(p + 1);
            let m = f * c;
            assert(a * c <= f * c < b * c) by (nonlinear_arith)
                requires
                    a <= f < b,
                    c > 0,
            ;
            lemma_fields_of_bits(negative, 874 + p, (m - 0x10_0000_0000_0000) as nat);
            lemma_div_multiples_vanish(f as int, c as int);
            lemma_mod_multiples_basic(f as int, c as int);
            lemma_pow2_pos((k - 1) as nat);
        }
    } else {
        let unit = 0x2000_0000int;
        let m = 0x10_0000_0000_0000 + f * unit;
        assert(f * unit < 0x10_0000_0000_0000) by (nonlinear_arith)
            requires
                f < 0x80_0000,
                unit == 0x2000_0000,
        ;
        lemma_fields_of_bits(negative, e + 896, (f * unit) as nat);
        assert(m == (0x80_0000 + f) * unit) by (nonlinear_arith)
            requires
                m == 0x10_0000_0000_0000 + f * unit,
                unit == 0x2000_0000,
        ;
        lemma_div_multiples_vanish(0x80_0000 + f as int, unit);
        lemma_mod_multiples_basic(0x80_0000 + f as int, unit);
    }
}

/// The range of the integer type that `ty` describes.
fn integer_bounds(ty: IntegerType) -> (r: (i128, i128))
    ensures
        r.0 == ty.min(),
        r.1 == ty.max(),
        -0x8000_0000_0000_0000 <= r.0 <= 0 <= r.1 <= 0xffff_ffff_ffff_ffff,
{
    match ty.sign {
        IntegerSign::Unsigned => match ty.size {
            IntegerSize::_8 => (0, 0xff),
            IntegerSize::_16 => (0, 0xffff),
            IntegerSize::_32 => (0, 0xffff_ffff),
            IntegerSize::_64 => (0, 0xffff_ffff_ffff_ffff),
        },
        IntegerSign::Signed => match ty.size {
            IntegerSize::_8 => (-0x80, 0x7f),
            IntegerSize::_16 => (-0x8000, 0x7fff),
            IntegerSize::_32 => (-0x8000_0000, 0x7fff_ffff),
            IntegerSize::_64 => (-0x8000_0000_0000_0000, 0x7fff_ffff_ffff_ffff),
        },
    }
}

} // verus!
