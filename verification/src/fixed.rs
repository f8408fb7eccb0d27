use vstd::prelude::*;

verus! {

/// The raw value that stands for the number one.
pub open spec fn scale() -> int {
    0x1_0000_0000
}

/// `v` brought into the range of raw values.
pub open spec fn saturate(v: int) -> int {
    if v < 0 {
        0
    } else if v > u64::MAX {
        u64::MAX as int
    } else {
        v
    }
}

/// A non-negative number in steps of 2^-32: the number `raw / 2^32`. Its view
/// is the raw value as a mathematical integer. Arithmetic rounds down and
/// saturates instead of wrapping.
#[derive(Clone, Copy, Debug, PartialEq, Eq, Structural)]
pub struct Fixed {
    pub raw: u64,
}

impl View for Fixed {
    type V = int;

    open spec fn view(&self) -> int {
        self.raw as int
    }
}

impl Fixed {
    /// The value whose raw representation is `v`, saturated.
    pub open spec fn of_raw(v: int) -> Fixed {
        Fixed { raw: saturate(v) as u64 }
    }

    /// The number one.
    pub open spec fn spec_one() -> Fixed {
        Fixed { raw: 0x1_0000_0000 }
    }

    /// The whole number `n`.
    pub open spec fn spec_from_int(n: int) -> Fixed {
        Fixed::of_raw(n * scale())
    }

    /// The fraction `num / den`, rounded down; the largest value where `den`
    /// is zero.
    pub open spec fn spec_from_ratio(num: int, den: int) -> Fixed {
        if den == 0 {
            Fixed { raw: u64::MAX }
        } else {
            Fixed::of_raw(num * scale() / den)
        }
    }

    /// The product, rounded down.
    pub open spec fn spec_mul(self, other: Fixed) -> Fixed {
        Fixed::of_raw(self@ * other@ / scale())
    }

    /// The quotient, rounded down; the largest value where `other` is zero.
    pub open spec fn spec_div(self, other: Fixed) -> Fixed {
        Fixed::spec_from_ratio(self@, other@)
    }

    /// The sum.
    pub open spec fn spec_add(self, other: Fixed) -> Fixed {
        Fixed::of_raw(self@ + other@)
    }

    /// The difference; zero where `other` is the larger.
    pub open spec fn spec_sub(self, other: Fixed) -> Fixed {
        Fixed::of_raw(self@ - other@)
    }

    /// This value taken `k` times.
    pub open spec fn spec_times(self, k: int) -> Fixed {
        Fixed::of_raw(self@ * k)
    }

    /// This value divided by the whole number `k`, rounded down; the largest
    /// value where `k` is zero.
    pub open spec fn spec_div_int(self, k: int) -> Fixed {
        if k == 0 {
            Fixed { raw: u64::MAX }
        } else {
            Fixed::of_raw(self@ / k)
        }
    }

    /// The nearest whole number, halves going up, capped at `u32::MAX`.
    pub open spec fn spec_round(self) -> int {
        let r = (self@ + scale() / 2) / scale();
        if r > u32::MAX {
            u32::MAX as int
        } else {
            r
        }
    }

    /// The value capped at one.
    pub open spec fn spec_clamp_unit(self) -> Fixed {
        if self@ > scale() {
            Fixed::spec_one()
        } else {
            self
        }
    }

    /// The number zero.
    pub fn zero() -> (z: Fixed)
        ensures
            z@ == 0,
    {
        Fixed { raw: 0 }
    }

    /// The number one.
    pub fn one() -> (o: Fixed)
        ensures
            o == Fixed::spec_one(),
    {
        Fixed { raw: 0x1_0000_0000 }
    }

    /// The value with the given raw representation.
    pub fn from_raw(raw: u64) -> (f: Fixed)
        ensures
            f@ == raw,
    {
        Fixed { raw }
    }

    /// The whole number `n`.
    pub fn from_int(n: u32) -> (f: Fixed)
        ensures
            f == Fixed::spec_from_int(n as int),
    {
        assert(0 <= n * 0x1_0000_0000 <= u64::MAX) by (nonlinear_arith)
            requires
                0 <= n <= u32::MAX,
        ;
        Fixed { raw: (n as u64) * 0x1_0000_0000 }
    }

    /// The fraction `num / den`, rounded down; the largest value where it
    /// would not fit or where `den` is zero.
    pub fn from_ratio(num: u64, den: u64) -> (f: Fixed)
        ensures
            f == Fixed::spec_from_ratio(num as int, den as int),
    {
        if den == 0 {
            Fixed { raw: u64::MAX }
        } else {
            assert(0 <= num * 0x1_0000_0000 <= u128::MAX) by (nonlinear_arith)
                requires
                    0 <= num <= u64::MAX,
            ;
            let q: u128 = (num as u128) * 0x1_0000_0000 / (den as u128);
            if q > u64::MAX as u128 {
                Fixed { raw: u64::MAX }
            } else {
                Fixed { raw: q as u64 }
            }
        }
    }

    /// Whether this is the number zero.
    pub fn is_zero(&self) -> (z: bool)
        ensures
            z == (self@ == 0),
    {
        self.raw == 0
    }

    /// The product, rounded down; the largest value where it would not fit.
    pub fn saturating_mul(self, other: Fixed) -> (p: Fixed)
        ensures
            p == self.spec_mul(other),
    {
        assert(0 <= self.raw * other.raw <= u128::MAX) by (nonlinear_arith)
            requires
                0 <= self.raw <= u64::MAX,
                0 <= other.raw <= u64::MAX,
        ;
        let wide: u128 = (self.raw as u128) * (other.raw as u128) / 0x1_0000_0000;
        if wide > u64::MAX as u128 {
            Fixed { raw: u64::MAX }
        } else {
            Fixed { raw: wide as u64 }
        }
    }

    /// The quotient, rounded down; the largest value where it would not fit
    /// or where `other` is zero.
    pub fn saturating_div(self, other: Fixed) -> (q: Fixed)
        ensures
            q == self.spec_div(other),
    {
        Fixed::from_ratio(self.raw, other.raw)
    }

    /// The sum; the largest value where it would not fit.
    pub fn saturating_add(self, other: Fixed) -> (s: Fixed)
        ensures
            s == self.spec_add(other),
    {
        Fixed { raw: self.raw.saturating_add(other.raw) }
    }

    /// The difference; zero where `other` is the larger.
    pub fn saturating_sub(self, other: Fixed) -> (d: Fixed)
        ensures
            d == self.spec_sub(other),
    {
        Fixed { raw: self.raw.saturating_sub(other.raw) }
    }

    /// This value taken `k` times; the largest value where it would not fit.
    pub fn saturating_times(self, k: u32) -> (p: Fixed)
        ensures
            p == self.spec_times(k as int),
    {
        assert(0 <= self.raw * k <= u128::MAX) by (nonlinear_arith)
            requires
                0 <= self.raw <= u64::MAX,
                0 <= k <= u32::MAX,
        ;
        let wide: u128 = (self.raw as u128) * (k as u128);
        if wide > u64::MAX as u128 {
            Fixed { raw: u64::MAX }
        } else {
            Fixed { raw: wide as u64 }
        }
    }

    /// This value divided by the whole number `k`, rounded down; the largest
    /// value where `k` is zero.
    pub fn div_int(self, k: u64) -> (q: Fixed)
        ensures
            q == self.spec_div_int(k as int),
    {
        if k == 0 {
            Fixed { raw: u64::MAX }
        } else {
            Fixed { raw: self.raw / k }
        }
    }

    /// The nearest whole number, halves going up, capped at `u32::MAX`.
    pub fn round(self) -> (n: u32)
        ensures
            n == self.spec_round(),
    {
        let r: u128 = (self.raw as u128 + 0x8000_0000) / 0x1_0000_0000;
        if r > u32::MAX as u128 {
            u32::MAX
        } else {
            r as u32
        }
    }

    /// The value capped at one.
    pub fn clamp_unit(self) -> (c: Fixed)
        ensures
            c == self.spec_clamp_unit(),
    {
        if self.raw > 0x1_0000_0000 {
            Fixed { raw: 0x1_0000_0000 }
        } else {
            self
        }
    }
}

} // verus!
