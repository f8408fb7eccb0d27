//! Single-precision binary floating-point numbers as 32-bit patterns: one
//! sign bit, eight bits of exponent and twenty-three bits of fraction. The
//! records that a GPU reads hold densities and chances in this form; the
//! library computes with `Fixed` and converts at the edge.

use vstd::arithmetic::power2::{
    lemma2_to64, lemma2_to64_rest, lemma_pow2_strictly_increases, lemma_pow2_unfold, pow2,
};
use vstd::prelude::*;

use crate::fixed::Fixed;

verus! {

/// The pattern of the number one.
pub const ONE_BITS: u32 = 0x3f80_0000;

/// The sign bit of a pattern.
pub open spec fn sign_of(bits: u32) -> int {
    bits as int / 0x8000_0000
}

/// The exponent field of a pattern.
pub open spec fn exponent_of(bits: u32) -> int {
    (bits as int / 0x80_0000) % 256
}

/// The fraction field of a pattern.
pub open spec fn fraction_of(bits: u32) -> int {
    bits as int % 0x80_0000
}

/// The significand of a finite pattern: the fraction, with the hidden bit
/// unless the number is subnormal.
pub open spec fn significand_of(bits: u32) -> int {
    if exponent_of(bits) == 0 {
        fraction_of(bits)
    } else {
        fraction_of(bits) + 0x80_0000
    }
}

/// The power of two by which the significand of a finite pattern is scaled
/// to give the raw value of a `Fixed`: the number is
/// `significand * 2^(exponent - 150)`, and a raw value counts in units of
/// 2^-32.
pub open spec fn raw_exponent_of(bits: u32) -> int {
    if exponent_of(bits) == 0 {
        1 - 118
    } else {
        exponent_of(bits) - 118
    }
}

/// The `Fixed` at or just below the number that a pattern stands for.
/// Negative numbers and patterns that are no number give zero; numbers
/// beyond the range, and infinity, give the largest value.
pub open spec fn spec_from_bits(bits: u32) -> Fixed {
    if sign_of(bits) == 1 {
        Fixed { raw: 0 }
    } else if exponent_of(bits) == 255 {
        if fraction_of(bits) == 0 {
            Fixed { raw: u64::MAX }
        } else {
            Fixed { raw: 0 }
        }
    } else if raw_exponent_of(bits) >= 0 {
        Fixed::of_raw(significand_of(bits) * pow2(raw_exponent_of(bits) as nat))
    } else {
        Fixed::of_raw(significand_of(bits) / (pow2((-raw_exponent_of(bits)) as nat) as int))
    }
}

/// Two to the power of `n`.
fn power_of_two(n: u32) -> (p: u128)
    requires
        n <= 63,
    ensures
        p == pow2(n as nat),
        1 <= p <= 0x8000_0000_0000_0000,
{
    let mut p: u128 = 1;
    let mut i: u32 = 0;
    proof {
        lemma2_to64();
        lemma2_to64_rest();
    }
    while i < n
        invariant
            i <= n <= 63,
            p == pow2(i as nat),
            1 <= p <= 0x8000_0000_0000_0000,
            pow2(63) == 0x8000_0000_0000_0000,
        decreases n - i,
    {
        proof {
            lemma_pow2_unfold((i + 1) as nat);
            if i + 1 < 63 {
                lemma_pow2_strictly_increases((i + 1) as nat, 63);
            }
        }
        p = p * 2;
        i += 1;
    }
    p
}

/// The `Fixed` at or just below the number that a pattern stands for.
pub fn from_bits(bits: u32) -> (x: Fixed)
    ensures
        x == spec_from_bits(bits),
{
    let sign: u32 = bits / 0x8000_0000;
    let exponent: u32 = (bits / 0x80_0000) % 256;
    let fraction: u32 = bits % 0x80_0000;
    if sign == 1 {
        return Fixed::zero();
    }
    if exponent == 255 {
        if fraction == 0 {
            return Fixed::from_raw(u64::MAX);
        } else {
            return Fixed::zero();
        }
    }
    let significand: u32 = if exponent == 0 {
        fraction
    } else {
        fraction + 0x80_0000
    };
    let scaled: u32 = if exponent == 0 {
        1
    } else {
        exponent
    };
    if scaled >= 118 {
        let up: u32 = scaled - 118;
        if significand == 0 {
            proof {
                assert(0 * pow2(up as nat) == 0);
            }
            Fixed::zero()
        } else if up >= 64 {
            proof {
                lemma2_to64();
                if up > 64 {
                    lemma_pow2_strictly_increases(64, up as nat);
                }
                assert(significand * pow2(up as nat) >= pow2(up as nat)) by (nonlinear_arith)
                    requires
                        significand >= 1,
                        pow2(up as nat) >= 0,
                ;
            }
            Fixed::from_raw(u64::MAX)
        } else {
            let factor: u128 = power_of_two(up);
            proof {
                assert(significand * factor <= 0x100_0000 * 0x8000_0000_0000_0000) by (nonlinear_arith)
                    requires
                        0 <= significand <= 0x100_0000,
                        0 <= factor <= 0x8000_0000_0000_0000,
                ;
            }
            let wide: u128 = (significand as u128) * factor;
            if wide > u64::MAX as u128 {
                Fixed::from_raw(u64::MAX)
            } else {
                Fixed::from_raw(wide as u64)
            }
        }
    } else {
        let down: u32 = 118 - scaled;
        if down >= 24 {
            proof {
                lemma2_to64();
                if down > 24 {
                    lemma_pow2_strictly_increases(24, down as nat);
                }
                vstd::arithmetic::div_mod::lemma_basic_div(
                    significand as int,
                    pow2(down as nat) as int,
                );
            }
            Fixed::zero()
        } else {
            let divisor: u128 = power_of_two(down);
            Fixed::from_raw(((significand as u128) / divisor) as u64)
        }
    }
}

/// The place of the highest bit that is set in `v`; zero for zero.
pub open spec fn msb(v: int) -> nat
    decreases v,
{
    if v <= 1 {
        0
    } else {
        1 + msb(v / 2)
    }
}

/// The place of the highest set bit is the one power of two that the number
/// reaches and whose double it does not.
pub proof fn lemma_msb(v: int, h: nat)
    requires
        pow2(h) <= v < pow2(h + 1),
    ensures
        msb(v) == h,
    decreases h,
{
    lemma2_to64();
    if h == 0 {
    } else {
        lemma_pow2_unfold(h);
        lemma_pow2_unfold(h + 1);
        lemma_msb(v / 2, (h - 1) as nat);
    }
}

/// A positive number lies between the power of two at its highest set bit
/// and the next one.
pub proof fn lemma_msb_bounds(v: int)
    requires
        v >= 1,
    ensures
        pow2(msb(v)) <= v < pow2(msb(v) + 1),
    decreases v,
{
    lemma2_to64();
    if v > 1 {
        lemma_msb_bounds(v / 2);
        lemma_pow2_unfold(msb(v));
        lemma_pow2_unfold(msb(v) + 1);
    }
}

/// The twenty-four bit significand that stands for a positive raw value:
/// the value moved so that its highest set bit comes to place twenty-three,
/// and rounded to the nearest whole number where bits are lost, halves going
/// to the even neighbour. Rounding up may give two to the power of
/// twenty-four.
pub open spec fn spec_rounded_significand(raw: int) -> int {
    let h = msb(raw);
    if h <= 23 {
        raw * pow2((23 - h) as nat)
    } else {
        let unit = pow2((h - 23) as nat) as int;
        let q = raw / unit;
        let r = raw % unit;
        if 2 * r > unit || (2 * r == unit && q % 2 == 1) {
            q + 1
        } else {
            q
        }
    }
}

/// The pattern of the number nearest to a `Fixed`.
pub open spec fn spec_to_bits(x: Fixed) -> u32 {
    if x@ == 0 {
        0
    } else {
        ((msb(x@) + 94) * 0x80_0000 + spec_rounded_significand(x@)) as u32
    }
}

/// The rounded significand of a positive raw value of 64 bits has its
/// highest bit at place twenty-three, or is two to the power of twenty-four.
pub proof fn lemma_rounded_significand(raw: int)
    requires
        1 <= raw <= u64::MAX,
    ensures
        0x80_0000 <= spec_rounded_significand(raw) <= 0x100_0000,
        msb(raw) <= 63,
{
    let h = msb(raw);
    lemma_msb_bounds(raw);
    lemma2_to64();
    if h >= 64 {
        if h > 64 {
            lemma_pow2_strictly_increases(64, h);
        }
    }
    if h <= 23 {
        let k = (23 - h) as nat;
        vstd::arithmetic::power2::lemma_pow2_adds(h, k);
        vstd::arithmetic::power2::lemma_pow2_adds(h + 1, k);
        assert(pow2(h) * pow2(k) <= raw * pow2(k) < pow2(h + 1) * pow2(k)) by (nonlinear_arith)
            requires
                pow2(h) <= raw < pow2(h + 1),
                pow2(k) > 0,
        ;
    } else {
        let k = (h - 23) as nat;
        let unit = pow2(k) as int;
        vstd::arithmetic::power2::lemma_pow2_adds(23, k);
        vstd::arithmetic::power2::lemma_pow2_adds(24, k);
        vstd::arithmetic::power2::lemma_pow2_pos(k);
        vstd::arithmetic::div_mod::lemma_fundamental_div_mod(raw, unit);
        vstd::arithmetic::div_mod::lemma_mod_bound(raw, unit);
        let q = raw / unit;
        assert(0x80_0000 <= q < 0x100_0000) by (nonlinear_arith)
            requires
                0x80_0000 * unit <= raw < 0x100_0000 * unit,
                raw == unit * q + raw % unit,
                0 <= raw % unit < unit,
        ;
    }
}

/// The place of the highest bit that is set in `raw`.
fn highest_bit(raw: u64) -> (h: u32)
    requires
        raw >= 1,
    ensures
        h == msb(raw as int),
        h <= 63,
        pow2(h as nat) <= raw < pow2((h + 1) as nat),
{
    let mut h: u32 = 0;
    let mut low: u128 = 1;
    proof {
        lemma2_to64();
        lemma2_to64_rest();
    }
    while low * 2 <= raw as u128
        invariant
            low == pow2(h as nat),
            1 <= low <= raw,
            h <= 63,
            pow2(63) == 0x8000_0000_0000_0000,
            pow2(64) == 0x1_0000_0000_0000_0000,
        decreases raw - low,
    {
        proof {
            lemma_pow2_unfold((h + 1) as nat);
            if h + 1 > 63 {
                assert(pow2(64) <= raw);
            }
        }
        low = low * 2;
        h += 1;
    }
    proof {
        lemma_pow2_unfold((h + 1) as nat);
        lemma_msb(raw as int, h as nat);
    }
    h
}

/// The pattern of the number nearest to a `Fixed`. Every `Fixed` lies within
/// the range of normal numbers, so that no pattern for infinity or for a
/// subnormal number comes out.
pub fn to_bits(x: Fixed) -> (bits: u32)
    ensures
        bits == spec_to_bits(x),
{
    let raw: u64 = x.raw;
    if raw == 0 {
        return 0;
    }
    let h: u32 = highest_bit(raw);
    proof {
        lemma_rounded_significand(raw as int);
    }
    let significand: u64 = if h <= 23 {
        let factor: u128 = power_of_two(23 - h);
        (raw as u128 * factor) as u64
    } else {
        let unit: u64 = power_of_two(h - 23) as u64;
        let q: u64 = raw / unit;
        let r: u64 = raw % unit;
        if r > unit - r || (r == unit - r && q % 2 == 1) {
            q + 1
        } else {
            q
        }
    };
    (h + 94) * 0x80_0000 + significand as u32
}

/// The raw value that a pattern made of the place `h` of the highest bit
/// and a rounded significand stands for, before it is cut to 64 bits:
/// `significand * 2^(h - 23)`, rounded down where `h` is below twenty-three.
pub open spec fn spec_scaled(h: nat, significand: int) -> int {
    if h >= 23 {
        significand * pow2((h - 23) as nat)
    } else {
        significand / (pow2((23 - h) as nat) as int)
    }
}

/// What the fields of a pattern are that was put together from the place
/// of the highest bit and a rounded significand, and what it decodes to.
pub proof fn lemma_decode_encoded(h: nat, significand: int)
    requires
        h <= 63,
        0x80_0000 <= significand <= 0x100_0000,
        h < 23 ==> significand < 0x100_0000,
    ensures
        spec_from_bits(((h + 94) * 0x80_0000 + significand) as u32) == Fixed::of_raw(
            spec_scaled(h, significand),
        ),
{
    let bits = ((h + 94) * 0x80_0000 + significand) as u32;
    assert(bits == (h + 94) * 0x80_0000 + significand);
    if significand < 0x100_0000 {
        assert(bits == (h + 95) * 0x80_0000 + (significand - 0x80_0000));
        assert(bits as int / 0x80_0000 == h + 95);
        assert(fraction_of(bits) == significand - 0x80_0000);
        assert(exponent_of(bits) == h + 95);
        assert(sign_of(bits) == 0);
        assert(significand_of(bits) == significand);
        assert(raw_exponent_of(bits) == h - 23);
    } else {
        assert(bits == (h + 96) * 0x80_0000);
        assert(bits as int / 0x80_0000 == h + 96);
        assert(fraction_of(bits) == 0);
        assert(exponent_of(bits) == h + 96);
        assert(sign_of(bits) == 0);
        assert(significand_of(bits) == 0x80_0000);
        assert(raw_exponent_of(bits) == h - 22);
        let k = (h - 23) as nat;
        lemma_pow2_unfold(k + 1);
        assert(0x80_0000 * (2 * pow2(k)) == 0x100_0000 * pow2(k)) by (nonlinear_arith);
    }
}

/// A `Fixed` whose bits all fit a significand of twenty-four bits comes back
/// unchanged from its pattern.
pub proof fn lemma_round_trip_exact(x: Fixed)
    requires
        x@ == 0 || msb(x@) <= 23 || x@ % (pow2((msb(x@) - 23) as nat) as int) == 0,
    ensures
        spec_from_bits(spec_to_bits(x)) == x,
{
    let raw = x@;
    if raw == 0 {
        assert(sign_of(0) == 0 && exponent_of(0) == 0 && fraction_of(0) == 0);
        vstd::arithmetic::power2::lemma_pow2_pos(117);
        assert(0int / (pow2(117) as int) == 0) by (nonlinear_arith)
            requires
                pow2(117) > 0,
        ;
    } else {
        let h = msb(raw);
        lemma_rounded_significand(raw);
        let significand = spec_rounded_significand(raw);
        if h <= 23 {
            let k = (23 - h) as nat;
            vstd::arithmetic::power2::lemma_pow2_pos(k);
            lemma2_to64();
            if h == 23 {
                assert(raw * 1 == raw);
            } else {
                lemma_msb_bounds(raw);
                vstd::arithmetic::power2::lemma_pow2_adds(h + 1, k);
                assert(raw * pow2(k) < pow2(h + 1) * pow2(k)) by (nonlinear_arith)
                    requires
                        raw < pow2(h + 1),
                        pow2(k) > 0,
                ;
                vstd::arithmetic::div_mod::lemma_div_by_multiple(raw, pow2(k) as int);
            }
            lemma_decode_encoded(h, significand);
        } else {
            let k = (h - 23) as nat;
            let unit = pow2(k) as int;
            vstd::arithmetic::power2::lemma_pow2_pos(k);
            vstd::arithmetic::div_mod::lemma_fundamental_div_mod(raw, unit);
            assert(significand == raw / unit);
            assert((raw / unit) * unit == unit * (raw / unit)) by (nonlinear_arith);
            lemma_decode_encoded(h, significand);
        }
    }
}

/// The pattern of a `Fixed` stands for the representable number nearest to
/// it: what comes back from the pattern differs from the `Fixed` by half a
/// step of the significand at most.
pub proof fn lemma_round_trip_nearest(x: Fixed)
    requires
        msb(x@) >= 24,
    ensures
        2 * (spec_from_bits(spec_to_bits(x))@ - x@) <= pow2((msb(x@) - 23) as nat),
        2 * (x@ - spec_from_bits(spec_to_bits(x))@) <= pow2((msb(x@) - 23) as nat),
{
    let raw = x@;
    let h = msb(raw);
    lemma_rounded_significand(raw);
    let significand = spec_rounded_significand(raw);
    let k = (h - 23) as nat;
    let unit = pow2(k) as int;
    vstd::arithmetic::power2::lemma_pow2_pos(k);
    vstd::arithmetic::div_mod::lemma_fundamental_div_mod(raw, unit);
    vstd::arithmetic::div_mod::lemma_mod_bound(raw, unit);
    let q = raw / unit;
    let r = raw % unit;
    lemma_decode_encoded(h, significand);
    assert(q * unit == unit * q && (q + 1) * unit == unit * q + unit) by (nonlinear_arith);
}

/// A `Fixed` of one at most comes back from its pattern as one at most.
pub proof fn lemma_round_trip_unit(x: Fixed)
    requires
        x@ <= crate::fixed::scale(),
    ensures
        spec_from_bits(spec_to_bits(x))@ <= crate::fixed::scale(),
{
    let raw = x@;
    lemma2_to64();
    if raw == 0 {
        lemma_round_trip_exact(x);
    } else if raw == crate::fixed::scale() {
        lemma2_to64_rest();
        lemma_msb(raw, 32);
        vstd::arithmetic::div_mod::lemma_mod_self_0(pow2(9) as int);
        assert(pow2(9) == 512) by {
            lemma_pow2_unfold(9);
        }
        assert(raw % 512 == 0);
        lemma_round_trip_exact(x);
    } else {
        let h = msb(raw);
        lemma_msb_bounds(raw);
        if h >= 32 {
            if h > 32 {
                lemma_pow2_strictly_increases(32, h);
            }
        }
        assert(h <= 31);
        if h <= 23 {
            lemma_round_trip_exact(x);
        } else {
            lemma_rounded_significand(raw);
            let significand = spec_rounded_significand(raw);
            let k = (h - 23) as nat;
            lemma_decode_encoded(h, significand);
            vstd::arithmetic::power2::lemma_pow2_adds(24, k);
            if h + 1 < 32 {
                lemma_pow2_strictly_increases(h + 1, 32);
            }
            assert(significand * pow2(k) <= 0x100_0000 * pow2(k)) by (nonlinear_arith)
                requires
                    significand <= 0x100_0000,
                    pow2(k) >= 0,
            ;
        }
    }
}

} // verus!
