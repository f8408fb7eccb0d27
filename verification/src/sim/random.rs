//! The source of chance: a fixed function from a cell's index and the tick's
//! number to the three samples that decide the cell's tick. The same cell in
//! the same tick always draws the same samples.

use vstd::prelude::*;

use crate::sim::rules::Draws;

verus! {

/// A bijective scrambling of 32 bits: two rounds of xor-shift and odd
/// multiplication, and a last xor-shift.
pub open spec fn spec_mix(x: u32) -> u32 {
    let a: u32 = x ^ (x >> 16);
    let b: u32 = a.wrapping_mul(0x7feb_352d);
    let c: u32 = b ^ (b >> 15);
    let d: u32 = c.wrapping_mul(0x846c_a68b);
    d ^ (d >> 16)
}

/// What cell `index` and tick `step` share between their three samples.
pub open spec fn spec_seed(index: u32, step: u32) -> u32 {
    spec_mix(index ^ spec_mix(step ^ 0x9e37_79b9))
}

/// The samples of cell `index` in tick `step`.
pub open spec fn spec_draws(index: u32, step: u32) -> Draws {
    let seed = spec_seed(index, step);
    Draws {
        lightning: spec_mix(seed.wrapping_add(1)),
        spread: spec_mix(seed.wrapping_add(2)),
        lifecycle: spec_mix(seed.wrapping_add(3)),
    }
}

/// Scrambles 32 bits.
pub fn mix(x: u32) -> (y: u32)
    ensures
        y == spec_mix(x),
{
    let a: u32 = x ^ (x >> 16);
    let b: u32 = a.wrapping_mul(0x7feb_352d);
    let c: u32 = b ^ (b >> 15);
    let d: u32 = c.wrapping_mul(0x846c_a68b);
    d ^ (d >> 16)
}

/// The samples of cell `index` in tick `step`.
pub fn draws(index: u32, step: u32) -> (d: Draws)
    ensures
        d == spec_draws(index, step),
{
    let seed: u32 = mix(index ^ mix(step ^ 0x9e37_79b9));
    Draws {
        lightning: mix(seed.wrapping_add(1)),
        spread: mix(seed.wrapping_add(2)),
        lifecycle: mix(seed.wrapping_add(3)),
    }
}

} // verus!
