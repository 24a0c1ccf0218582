use vstd::prelude::*;

use crate::geom::{lerp, lerp_spec, lemma_lerp_bounds, COORD_LIMIT, FIXED_ONE};

verus! {

/// Lattice cell size of the noise field, and also the magnitude bound of a
/// sampled value: samples lie in `[-NOISE_ONE, NOISE_ONE]`.
pub const NOISE_ONE: i64 = 1024;

/// One xor-shift diffusion round of the lattice hash.
pub open spec fn mix64_spec(z: u64) -> u64 {
    let a = (z ^ (z >> 31)) ^ 0x9e3779b97f4a7c15u64;
    let b = a ^ (a << 13);
    let c = b ^ (b >> 7);
    c ^ (c << 17)
}

fn mix64(z: u64) -> (r: u64)
    ensures
        r == mix64_spec(z),
{
    let a = (z ^ (z >> 31)) ^ 0x9e3779b97f4a7c15u64;
    let b = a ^ (a << 13);
    let c = b ^ (b >> 7);
    c ^ (c << 17)
}

/// Pseudo-random lattice value at integer cell `(ix, iy)` for a seed:
/// a pure mixing of the three inputs.
pub open spec fn lattice_hash_spec(seed: u64, ix: u64, iy: u64) -> u64 {
    mix64_spec(mix64_spec(mix64_spec(ix ^ seed) ^ 0xc2b2ae3d27d4eb4fu64 ^ iy) ^ seed)
}

pub fn lattice_hash(seed: u64, ix: u64, iy: u64) -> (r: u64)
    ensures
        r == lattice_hash_spec(seed, ix, iy),
{
    mix64(mix64(mix64(ix ^ seed) ^ 0xc2b2ae3d27d4eb4fu64 ^ iy) ^ seed)
}

/// Lattice corner value in `[0, 2 * NOISE_ONE]`.
pub open spec fn corner_spec(seed: u64, ix: int, iy: int) -> int {
    lattice_hash_spec(seed, ix as u64, iy as u64) as int % (2 * NOISE_ONE + 1)
}

fn corner(seed: u64, ix: u64, iy: u64) -> (r: i64)
    ensures
        r == corner_spec(seed, ix as int, iy as int),
        0 <= r <= 2 * NOISE_ONE,
{
    let h: u64 = lattice_hash(seed, ix, iy);
    let m: u64 = h % (2 * NOISE_ONE as u64 + 1);
    m as i64
}

/// The stateless coherent noise field: the sample at a non-negative position
/// `(x, y)` under spatial frequency `scale / FIXED_ONE`, interpolated
/// bilinearly between the four surrounding pseudo-random lattice values and
/// recentered into `[-NOISE_ONE, NOISE_ONE]`. Nearby positions give nearby
/// samples, and the same (seed, position, frequency) always gives the same
/// sample.
#[verifier::opaque]
pub open spec fn noise_spec(seed: u64, x: int, y: int, scale: int) -> int {
    let xs = (x * scale) / (FIXED_ONE as int);
    let ys = (y * scale) / (FIXED_ONE as int);
    let ix = xs / (NOISE_ONE as int);
    let iy = ys / (NOISE_ONE as int);
    let fx = xs % (NOISE_ONE as int);
    let fy = ys % (NOISE_ONE as int);
    let v00 = corner_spec(seed, ix, iy);
    let v10 = corner_spec(seed, ix + 1, iy);
    let v01 = corner_spec(seed, ix, iy + 1);
    let v11 = corner_spec(seed, ix + 1, iy + 1);
    let nx0 = lerp_spec(v00, v10, fx, NOISE_ONE as int);
    let nx1 = lerp_spec(v01, v11, fx, NOISE_ONE as int);
    lerp_spec(nx0, nx1, fy, NOISE_ONE as int) - NOISE_ONE
}

/// Samples the noise field at `(x, y)`.
pub fn noise_value(seed: u64, x: i64, y: i64, scale: i64) -> (r: i64)
    requires
        0 <= x <= COORD_LIMIT,
        0 <= y <= COORD_LIMIT,
        0 <= scale <= FIXED_ONE,
    ensures
        r == noise_spec(seed, x as int, y as int, scale as int),
        -NOISE_ONE <= r <= NOISE_ONE,
{
    proof {
        reveal(noise_spec);
        assert(0 <= (x as int) * (scale as int) <= (COORD_LIMIT as int) * (FIXED_ONE as int))
            by (nonlinear_arith)
            requires
                0 <= x as int <= COORD_LIMIT as int,
                0 <= scale as int <= FIXED_ONE as int,
        ;
        assert(0 <= (y as int) * (scale as int) <= (COORD_LIMIT as int) * (FIXED_ONE as int))
            by (nonlinear_arith)
            requires
                0 <= y as int <= COORD_LIMIT as int,
                0 <= scale as int <= FIXED_ONE as int,
        ;
    }
    let xs: i64 = (x * scale) / FIXED_ONE;
    let ys: i64 = (y * scale) / FIXED_ONE;
    let ix: i64 = xs / NOISE_ONE;
    let iy: i64 = ys / NOISE_ONE;
    let fx: i64 = xs % NOISE_ONE;
    let fy: i64 = ys % NOISE_ONE;
    let v00 = corner(seed, ix as u64, iy as u64);
    let v10 = corner(seed, ix as u64 + 1, iy as u64);
    let v01 = corner(seed, ix as u64, iy as u64 + 1);
    let v11 = corner(seed, ix as u64 + 1, iy as u64 + 1);
    let nx0 = lerp(v00, v10, fx, NOISE_ONE);
    let nx1 = lerp(v01, v11, fx, NOISE_ONE);
    let n = lerp(nx0, nx1, fy, NOISE_ONE);
    proof {
        lemma_lerp_bounds(nx0 as int, nx1 as int, fy as int, NOISE_ONE as int);
    }
    n - NOISE_ONE
}

} // verus!
