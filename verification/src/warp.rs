use vstd::prelude::*;

use crate::geom::{in_bounds, Point, COORD_LIMIT, FIXED_ONE};
use crate::grid::{point_in_box, Grid};
use crate::noise::{noise_spec, noise_value, NOISE_ONE};

verus! {

/// Largest allowed displacement magnitude (noise-factor), in coordinate
/// units.
pub const MAX_WARP: i64 = 10_000;

/// Largest coordinate a grid may hold before warping, so that a warped
/// coordinate still fits the geometry's bounds.
pub const WARP_LIMIT: i64 = COORD_LIMIT - MAX_WARP;

/// Seed separator for the two decorrelated noise channels: the y channel
/// samples the field under a seed xored with this constant.
pub const Y_CHANNEL: u64 = 0x94d049bb133111eb;

/// A noise sample scaled by the noise-factor: `n * factor / NOISE_ONE`,
/// rounded toward zero.
pub open spec fn displacement_spec(n: int, factor: int) -> int {
    if n >= 0 {
        (n * factor) / (NOISE_ONE as int)
    } else {
        -(((-n) * factor) / (NOISE_ONE as int))
    }
}

fn displacement(n: i64, factor: i64) -> (r: i64)
    requires
        -NOISE_ONE <= n <= NOISE_ONE,
        0 <= factor <= MAX_WARP,
    ensures
        r == displacement_spec(n as int, factor as int),
        -factor <= r <= factor,
{
    if n >= 0 {
        proof {
            crate::geom::lemma_scaled_fraction_bounds(factor as int, n as int, NOISE_ONE as int);
            assert((n as int) * (factor as int) == (factor as int) * (n as int));
            assert(0 <= (n as int) * (factor as int) <= (NOISE_ONE as int) * (MAX_WARP as int))
                by (nonlinear_arith)
                requires
                    0 <= n as int <= NOISE_ONE as int,
                    0 <= factor as int <= MAX_WARP as int,
            ;
        }
        (n * factor) / NOISE_ONE
    } else {
        let m = -n;
        proof {
            crate::geom::lemma_scaled_fraction_bounds(factor as int, m as int, NOISE_ONE as int);
            assert((m as int) * (factor as int) == (factor as int) * (m as int));
            assert(0 <= (m as int) * (factor as int) <= (NOISE_ONE as int) * (MAX_WARP as int))
                by (nonlinear_arith)
                requires
                    0 <= m as int <= NOISE_ONE as int,
                    0 <= factor as int <= MAX_WARP as int,
            ;
        }
        -((m * factor) / NOISE_ONE)
    }
}

/// Where warping carries a vertex: each coordinate moves by a decorrelated
/// noise sample at the vertex's pre-warp position, scaled by the
/// noise-factor.
pub open spec fn warp_point_spec(p: Point, scale: int, factor: int, seed: u64) -> Point {
    Point {
        x: (p.x + displacement_spec(noise_spec(seed, p.x as int, p.y as int, scale), factor)) as i64,
        y: (p.y + displacement_spec(
            noise_spec(seed ^ Y_CHANNEL, p.x as int, p.y as int, scale),
            factor,
        )) as i64,
    }
}

fn warp_point(p: Point, scale: i64, factor: i64, seed: u64) -> (r: Point)
    requires
        point_in_box(p, 0, WARP_LIMIT as int),
        0 <= scale <= FIXED_ONE,
        0 <= factor <= MAX_WARP,
    ensures
        r == warp_point_spec(p, scale as int, factor as int, seed),
        p.x - factor <= r.x <= p.x + factor,
        p.y - factor <= r.y <= p.y + factor,
        in_bounds(r),
{
    let nx = noise_value(seed, p.x, p.y, scale);
    let ny = noise_value(seed ^ Y_CHANNEL, p.x, p.y, scale);
    let dx = displacement(nx, factor);
    let dy = displacement(ny, factor);
    Point { x: p.x + dx, y: p.y + dy }
}

impl Grid {
    /// A new grid with every distinct vertex displaced by the noise field;
    /// vertices shared between adjacent quads are stored (and therefore
    /// displaced) once. A noise-factor of zero returns the grid unchanged,
    /// whatever the noise-scale and seed.
    pub fn warped(&self, scale: i64, factor: i64, seed: u64) -> (r: Grid)
        requires
            self.wf(),
            forall|i: int|
                0 <= i < self.verts@.len() ==> point_in_box(
                    #[trigger] self.verts@[i],
                    0,
                    WARP_LIMIT as int,
                ),
            0 <= scale <= FIXED_ONE,
            0 <= factor <= MAX_WARP,
        ensures
            r.wf(),
            r.rows == self.rows,
            r.cols == self.cols,
            r.verts@.len() == self.verts@.len(),
            forall|i: int|
                0 <= i < r.verts@.len() ==> #[trigger] r.verts@[i] == warp_point_spec(
                    self.verts@[i],
                    scale as int,
                    factor as int,
                    seed,
                ),
            forall|i: int|
                0 <= i < r.verts@.len() ==> point_in_box(
                    #[trigger] r.verts@[i],
                    -MAX_WARP as int,
                    COORD_LIMIT as int,
                ),
            factor == 0 ==> r.verts@ == self.verts@,
    {
        let n = self.verts.len();
        let mut out: Vec<Point> = Vec::new();
        let mut k: usize = 0;
        while k < n
            invariant
                self.wf(),
                forall|i: int|
                    0 <= i < self.verts@.len() ==> point_in_box(
                        #[trigger] self.verts@[i],
                        0,
                        WARP_LIMIT as int,
                    ),
                0 <= scale <= FIXED_ONE,
                0 <= factor <= MAX_WARP,
                n == self.verts@.len(),
                k <= n,
                out@.len() == k,
                forall|i: int|
                    0 <= i < k ==> #[trigger] out@[i] == warp_point_spec(
                        self.verts@[i],
                        scale as int,
                        factor as int,
                        seed,
                    ),
                forall|i: int|
                    0 <= i < k ==> point_in_box(
                        #[trigger] out@[i],
                        -MAX_WARP as int,
                        COORD_LIMIT as int,
                    ),
            decreases n - k,
        {
            let p = self.verts[k];
            let w = warp_point(p, scale, factor, seed);
            out.push(w);
            k = k + 1;
        }
        let g = Grid { rows: self.rows, cols: self.cols, verts: out };
        proof {
            if factor == 0 {
                assert forall|i: int| 0 <= i < g.verts@.len() implies #[trigger] g.verts@[i]
                    == self.verts@[i] by {
                    let p = self.verts@[i];
                    assert(noise_spec(seed, p.x as int, p.y as int, scale as int) * 0 == 0);
                    assert(noise_spec(seed ^ Y_CHANNEL, p.x as int, p.y as int, scale as int) * 0
                        == 0);
                    assert((-noise_spec(seed, p.x as int, p.y as int, scale as int)) * 0 == 0);
                    assert((-noise_spec(seed ^ Y_CHANNEL, p.x as int, p.y as int, scale as int)) * 0
                        == 0);
                }
                assert(g.verts@ =~= self.verts@);
            }
        }
        g
    }
}

} // verus!
