use vstd::prelude::*;

use crate::geom::FIXED_ONE;
use crate::noise::{lattice_hash, lattice_hash_spec, noise_spec, noise_value, NOISE_ONE};
use crate::palette::Rgba8;
use crate::treatment::Treatment;
use crate::warp::displacement_spec;

verus! {

/// Largest raster patch edge, in pixels.
pub const MAX_PATCH_DIM: i64 = 24_000;

/// Channel seeds that decorrelate the texture families' noise and hashes.
pub const STIPPLE_X_SEED: u64 = 101;

pub const STIPPLE_Y_SEED: u64 = 102;

pub const WOOD_SEED: u64 = 103;

pub const MARBLE_A_SEED: u64 = 104;

pub const MARBLE_B_SEED: u64 = 105;

pub const RIDGE_SEED: u64 = 106;

pub const SAND_SEED: u64 = 107;

pub const GRANITE_SEED: u64 = 108;

pub const GRAIN_SEED: u64 = 109;

/// A small in-memory pixel buffer: `width * height` colors, row-major.
pub struct RasterPatch {
    pub width: u32,
    pub height: u32,
    pub pixels: Vec<Rgba8>,
}

impl RasterPatch {
    pub open spec fn wf(self) -> bool {
        &&& 1 <= self.width as int <= MAX_PATCH_DIM
        &&& 1 <= self.height as int <= MAX_PATCH_DIM
        &&& self.pixels@.len() == (self.width as int) * (self.height as int)
    }
}

/// A channel value clamped into the 8-bit range.
pub open spec fn clamp_channel_spec(v: int) -> int {
    if v < 0 {
        0
    } else if v > 255 {
        255
    } else {
        v
    }
}

/// Stippled dots: one dot per `p`-sized cell, at a hashed position inside the
/// cell; everything else is transparent.
pub open spec fn stipple_texel_spec(x: int, y: int, c: Rgba8, p: int) -> Rgba8 {
    let hx = lattice_hash_spec(STIPPLE_X_SEED, (x / p) as u64, (y / p) as u64) as int % p;
    let hy = lattice_hash_spec(STIPPLE_Y_SEED, (x / p) as u64, (y / p) as u64) as int % p;
    if x % p == hx && y % p == hy {
        c
    } else {
        Rgba8 { r: 0, g: 0, b: 0, a: 0 }
    }
}

/// Banded, wood-like rings along the x axis, wobbled by the noise field.
pub open spec fn wood_texel_spec(x: int, y: int, c1: Rgba8, c2: Rgba8, p: int) -> Rgba8 {
    let wobble = displacement_spec(noise_spec(WOOD_SEED, x, y, p), 16);
    let band = (x + 16 + wobble) / 8;
    if band % 2 == 0 {
        c1
    } else {
        c2
    }
}

/// Marbled blobs: the sign of two decorrelated noise samples added.
pub open spec fn marble_texel_spec(x: int, y: int, c1: Rgba8, c2: Rgba8, p: int) -> Rgba8 {
    let s = noise_spec(MARBLE_A_SEED, x, y, p) + noise_spec(MARBLE_B_SEED, x + 4096, y + 4096, p);
    if s >= 0 {
        c1
    } else {
        c2
    }
}

/// Ridged pattern: the magnitude of a noise sample against half amplitude.
pub open spec fn ridge_texel_spec(x: int, y: int, c1: Rgba8, c2: Rgba8, p: int) -> Rgba8 {
    let v = noise_spec(RIDGE_SEED, x, y, p);
    let m = if v >= 0 {
        v
    } else {
        -v
    };
    if m >= NOISE_ONE / 2 {
        c1
    } else {
        c2
    }
}

/// Horizontal two-tone striping at band thickness `p`.
pub open spec fn stripe_texel_spec(x: int, y: int, c1: Rgba8, c2: Rgba8, p: int) -> Rgba8 {
    if (y / p) % 2 == 0 {
        c1
    } else {
        c2
    }
}

/// Granular, sand-like blend: each pixel picks the first color with
/// probability `p / FIXED_ONE` under the per-pixel hash.
pub open spec fn sand_texel_spec(x: int, y: int, c1: Rgba8, c2: Rgba8, p: int) -> Rgba8 {
    let d = lattice_hash_spec(SAND_SEED, x as u64, y as u64) as int % (FIXED_ONE as int);
    if d < p {
        c1
    } else {
        c2
    }
}

/// Coarse granite-like speckle: the sand blend over 4-pixel cells.
pub open spec fn granite_texel_spec(x: int, y: int, c1: Rgba8, c2: Rgba8, p: int) -> Rgba8 {
    let d = lattice_hash_spec(GRANITE_SEED, (x / 4) as u64, (y / 4) as u64) as int % (
    FIXED_ONE as int);
    if d < p {
        c1
    } else {
        c2
    }
}

/// Fine per-pixel luminance grain over a flat color: every channel is
/// jittered by a hashed offset scaled by `p / 1000`, clamped to 8 bits.
pub open spec fn grain_texel_spec(x: int, y: int, c: Rgba8, p: int) -> Rgba8 {
    let j = lattice_hash_spec(GRAIN_SEED, x as u64, y as u64) as int % 61 - 30;
    let d = if j >= 0 {
        (j * p) / 1000
    } else {
        -(((-j) * p) / 1000)
    };
    Rgba8 {
        r: clamp_channel_spec(c.r + d) as u8,
        g: clamp_channel_spec(c.g + d) as u8,
        b: clamp_channel_spec(c.b + d) as u8,
        a: c.a,
    }
}

/// The pixel a texture family puts at `(x, y)`: a pure function of the
/// family, the position, the one or two colors, and the shape parameter.
#[verifier::opaque]
pub open spec fn texel_spec(kind: Treatment, x: int, y: int, c1: Rgba8, c2: Rgba8, p: int) -> Rgba8 {
    match kind {
        Treatment::Stipple => stipple_texel_spec(x, y, c1, p),
        Treatment::Wood => wood_texel_spec(x, y, c1, c2, p),
        Treatment::Marble => marble_texel_spec(x, y, c1, c2, p),
        Treatment::Ridge => ridge_texel_spec(x, y, c1, c2, p),
        Treatment::Stripe => stripe_texel_spec(x, y, c1, c2, p),
        Treatment::Sand => sand_texel_spec(x, y, c1, c2, p),
        Treatment::Granite => granite_texel_spec(x, y, c1, c2, p),
        Treatment::Grain => grain_texel_spec(x, y, c1, p),
        Treatment::Photo => c1,
    }
}

fn clamp_channel(v: i64) -> (r: i64)
    ensures
        r == clamp_channel_spec(v as int),
{
    if v < 0 {
        0
    } else if v > 255 {
        255
    } else {
        v
    }
}

/// Computes one texture pixel.
fn texel_at(kind: Treatment, x: i64, y: i64, c1: Rgba8, c2: Rgba8, p: i64) -> (r: Rgba8)
    requires
        kind != Treatment::Photo,
        0 <= x < MAX_PATCH_DIM,
        0 <= y < MAX_PATCH_DIM,
        1 <= p <= FIXED_ONE,
    ensures
        r == texel_spec(kind, x as int, y as int, c1, c2, p as int),
{
    proof {
        reveal(texel_spec);
    }
    match kind {
        Treatment::Stipple => {
            let cx = x / p;
            let cy = y / p;
            let hx = (lattice_hash(STIPPLE_X_SEED, cx as u64, cy as u64) % (p as u64)) as i64;
            let hy = (lattice_hash(STIPPLE_Y_SEED, cx as u64, cy as u64) % (p as u64)) as i64;
            if x % p == hx && y % p == hy {
                c1
            } else {
                Rgba8 { r: 0, g: 0, b: 0, a: 0 }
            }
        },
        Treatment::Wood => {
            let v = noise_value(WOOD_SEED, x, y, p);
            let wobble = if v >= 0 {
                (v * 16) / NOISE_ONE
            } else {
                -(((-v) * 16) / NOISE_ONE)
            };
            let band = (x + 16 + wobble) / 8;
            if band % 2 == 0 {
                c1
            } else {
                c2
            }
        },
        Treatment::Marble => {
            let s = noise_value(MARBLE_A_SEED, x, y, p) + noise_value(
                MARBLE_B_SEED,
                x + 4096,
                y + 4096,
                p,
            );
            if s >= 0 {
                c1
            } else {
                c2
            }
        },
        Treatment::Ridge => {
            let v = noise_value(RIDGE_SEED, x, y, p);
            let m = if v >= 0 {
                v
            } else {
                -v
            };
            if m >= NOISE_ONE / 2 {
                c1
            } else {
                c2
            }
        },
        Treatment::Stripe => {
            if (y / p) % 2 == 0 {
                c1
            } else {
                c2
            }
        },
        Treatment::Sand => {
            let d = (lattice_hash(SAND_SEED, x as u64, y as u64) % (FIXED_ONE as u64)) as i64;
            if d < p {
                c1
            } else {
                c2
            }
        },
        Treatment::Granite => {
            let d = (lattice_hash(GRANITE_SEED, (x / 4) as u64, (y / 4) as u64) % (
            FIXED_ONE as u64)) as i64;
            if d < p {
                c1
            } else {
                c2
            }
        },
        Treatment::Grain | Treatment::Photo => {
            let j = (lattice_hash(GRAIN_SEED, x as u64, y as u64) % 61) as i64 - 30;
            proof {
                let jj = if j >= 0 {
                    j as int
                } else {
                    -(j as int)
                };
                assert(0 <= jj * (p as int) <= 30 * (FIXED_ONE as int)) by (nonlinear_arith)
                    requires
                        0 <= jj <= 30,
                        0 <= p as int <= FIXED_ONE as int,
                ;
            }
            let d = if j >= 0 {
                (j * p) / 1000
            } else {
                -(((-j) * p) / 1000)
            };
            Rgba8 {
                r: clamp_channel(c1.r as i64 + d) as u8,
                g: clamp_channel(c1.g as i64 + d) as u8,
                b: clamp_channel(c1.b as i64 + d) as u8,
                a: c1.a,
            }
        },
    }
}

/// Synthesizes a texture patch: a deterministic, pure function of the
/// family, the dimensions, the colors, and the shape parameter. Every pixel
/// is the family's texel at its position.
pub fn synthesize(kind: Treatment, w: u32, h: u32, c1: Rgba8, c2: Rgba8, p: i64) -> (r: RasterPatch)
    requires
        kind != Treatment::Photo,
        1 <= w as int <= MAX_PATCH_DIM,
        1 <= h as int <= MAX_PATCH_DIM,
        (w as int) * (h as int) <= usize::MAX,
        1 <= p <= FIXED_ONE,
    ensures
        r.wf(),
        r.width == w,
        r.height == h,
        forall|i: int|
            0 <= i < r.pixels@.len() ==> #[trigger] r.pixels@[i] == texel_spec(
                kind,
                i % (w as int),
                i / (w as int),
                c1,
                c2,
                p as int,
            ),
{
    let mut pixels: Vec<Rgba8> = Vec::new();
    let mut y: u32 = 0;
    while y < h
        invariant
            kind != Treatment::Photo,
            1 <= w as int <= MAX_PATCH_DIM,
            1 <= h as int <= MAX_PATCH_DIM,
            (w as int) * (h as int) <= usize::MAX,
            1 <= p <= FIXED_ONE,
            y <= h,
            pixels@.len() == (y as int) * (w as int),
            forall|i: int|
                0 <= i < pixels@.len() ==> #[trigger] pixels@[i] == texel_spec(
                    kind,
                    i % (w as int),
                    i / (w as int),
                    c1,
                    c2,
                    p as int,
                ),
        decreases h - y,
    {
        let mut x: u32 = 0;
        while x < w
            invariant
                kind != Treatment::Photo,
                1 <= w as int <= MAX_PATCH_DIM,
                1 <= h as int <= MAX_PATCH_DIM,
                (w as int) * (h as int) <= usize::MAX,
                1 <= p <= FIXED_ONE,
                y < h,
                x <= w,
                pixels@.len() == (y as int) * (w as int) + x as int,
                forall|i: int|
                    0 <= i < pixels@.len() ==> #[trigger] pixels@[i] == texel_spec(
                        kind,
                        i % (w as int),
                        i / (w as int),
                        c1,
                        c2,
                        p as int,
                    ),
            decreases w - x,
        {
            let px = texel_at(kind, x as i64, y as i64, c1, c2, p);
            proof {
                let i = pixels@.len() as int;
                vstd::arithmetic::div_mod::lemma_fundamental_div_mod_converse(
                    i,
                    w as int,
                    y as int,
                    x as int,
                );
                assert(0 <= (y as int) * (w as int) + (x as int) < (h as int) * (w as int))
                    by (nonlinear_arith)
                    requires
                        0 <= (y as int) < (h as int),
                        0 <= (x as int) < (w as int),
                ;
            }
            pixels.push(px);
            x = x + 1;
        }
        y = y + 1;
        proof {
            assert(((y - 1) as int) * (w as int) + (w as int) == (y as int) * (w as int))
                by (nonlinear_arith);
        }
    }
    proof {
        assert((h as int) * (w as int) == (w as int) * (h as int)) by (nonlinear_arith);
    }
    RasterPatch { width: w, height: h, pixels }
}

} // verus!
