use vstd::prelude::*;

use crate::geom::{lerp, lerp_spec};
use crate::rng::{pcg_draw, SeededRandomStream};
use crate::RenderError;

verus! {

/// An 8-bit RGBA color; all raster patches and palettes are made of these.
#[derive(Clone, Copy, PartialEq, Eq, Structural, Debug)]
pub struct Rgba8 {
    pub r: u8,
    pub g: u8,
    pub b: u8,
    pub a: u8,
}

/// Opaque white.
pub fn white_color() -> (c: Rgba8)
    ensures
        c == (Rgba8 { r: 255, g: 255, b: 255, a: 255 }),
{
    Rgba8 { r: 255, g: 255, b: 255, a: 255 }
}

/// The luminance of a color, by the usual integer weights.
pub open spec fn luma_spec(c: Rgba8) -> int {
    (c.r * 299 + c.g * 587 + c.b * 114) / 1000
}

/// Moving a channel toward the luminance by `f / 1000`.
pub open spec fn desat_channel_spec(ch: int, l: int, f: int) -> int {
    lerp_spec(ch, l, f, 1000)
}

/// A color desaturated by `f / 1000`: every channel moves toward the
/// luminance; the alpha channel is kept.
pub open spec fn desat_spec(c: Rgba8, f: int) -> Rgba8 {
    Rgba8 {
        r: desat_channel_spec(c.r as int, luma_spec(c), f) as u8,
        g: desat_channel_spec(c.g as int, luma_spec(c), f) as u8,
        b: desat_channel_spec(c.b as int, luma_spec(c), f) as u8,
        a: c.a,
    }
}

/// The integer luminance of a color, in `[0, 255]`.
pub fn luma(c: Rgba8) -> (l: i64)
    ensures
        l == luma_spec(c),
        0 <= l <= 255,
{
    ((c.r as i64) * 299 + (c.g as i64) * 587 + (c.b as i64) * 114) / 1000
}

/// Desaturates one color by `f / 1000`.
pub fn desaturate_color(c: Rgba8, f: i64) -> (r: Rgba8)
    requires
        0 <= f <= 1000,
    ensures
        r == desat_spec(c, f as int),
{
    let l = luma(c);
    let nr = lerp(c.r as i64, l, f, 1000);
    let ng = lerp(c.g as i64, l, f, 1000);
    let nb = lerp(c.b as i64, l, f, 1000);
    Rgba8 { r: nr as u8, g: ng as u8, b: nb as u8, a: c.a }
}

/// A color sampler: a fixed list of representative colors, sampled through
/// the seeded stream, with a desaturation operation.
pub struct Palette {
    colors: Vec<Rgba8>,
}

impl Palette {
    /// The colors the palette samples from.
    pub closed spec fn colors_spec(&self) -> Seq<Rgba8> {
        self.colors@
    }

    /// Builds a palette; refuses an empty color list.
    pub fn new(colors: Vec<Rgba8>) -> (res: Result<Palette, RenderError>)
        ensures
            res is Ok <==> colors@.len() >= 1,
            res is Err ==> res == Err::<Palette, RenderError>(RenderError::EmptyPalette),
            res matches Ok(p) ==> p.colors_spec() == colors@,
    {
        if colors.len() == 0 {
            Err(RenderError::EmptyPalette)
        } else {
            Ok(Palette { colors })
        }
    }

    pub fn len(&self) -> (n: usize)
        ensures
            n == self.colors_spec().len(),
    {
        self.colors.len()
    }

    pub fn color_at(&self, i: usize) -> (c: Rgba8)
        requires
            i < self.colors_spec().len(),
        ensures
            c == self.colors_spec()[i as int],
    {
        self.colors[i]
    }

    /// Samples a representative color: consumes exactly one draw below the
    /// palette's size and returns the color at that index.
    pub fn sample(&self, stream: &mut SeededRandomStream) -> (c: Rgba8)
        requires
            self.colors_spec().len() >= 1,
        ensures
            c == self.colors_spec()[pcg_draw(
                old(stream).seed_spec(),
                old(stream).history().push(self.colors_spec().len() as u64),
            ) as int],
            final(stream).seed_spec() == old(stream).seed_spec(),
            final(stream).history() == old(stream).history().push(
                self.colors_spec().len() as u64,
            ),
    {
        let n = self.colors.len();
        let d = stream.next_below(n as u64);
        self.colors[d as usize]
    }

    /// Desaturates every palette color by `f / 1000`.
    pub fn desaturate(&mut self, f: i64)
        requires
            0 <= f <= 1000,
        ensures
            final(self).colors_spec().len() == old(self).colors_spec().len(),
            forall|i: int|
                0 <= i < final(self).colors_spec().len() ==> #[trigger] final(self).colors_spec()[i]
                    == desat_spec(old(self).colors_spec()[i], f as int),
    {
        let n = self.colors.len();
        let mut out: Vec<Rgba8> = Vec::new();
        let mut k: usize = 0;
        while k < n
            invariant
                0 <= f <= 1000,
                self.colors@ == old(self).colors@,
                n == self.colors@.len(),
                k <= n,
                out@.len() == k,
                forall|i: int|
                    0 <= i < k ==> #[trigger] out@[i] == desat_spec(self.colors@[i], f as int),
            decreases n - k,
        {
            let c = self.colors[k];
            out.push(desaturate_color(c, f));
            k = k + 1;
        }
        self.colors = out;
    }
}

} // verus!
