use vstd::prelude::*;

use crate::geom::{BoundingBox, COORD_LIMIT};
use crate::palette::Rgba8;
use crate::texture::{RasterPatch, MAX_PATCH_DIM};
use crate::RenderError;

verus! {

/// A decoded 8-bit RGBA photograph: raw bytes, row-major, four per pixel.
/// The decoder (an external collaborator) hands the core this plain buffer.
pub struct PhotoSource {
    pub width: u32,
    pub height: u32,
    pub bytes: Vec<u8>,
}

impl PhotoSource {
    pub open spec fn wf(self) -> bool {
        &&& self.width >= 1
        &&& self.height >= 1
        &&& self.bytes@.len() == 4 * (self.width as int) * (self.height as int)
    }

    /// Accepts a decoded buffer; refuses one whose size does not match an
    /// 8-bit RGBA layout of the stated dimensions.
    pub fn new(width: u32, height: u32, bytes: Vec<u8>) -> (res: Result<PhotoSource, RenderError>)
        ensures
            res is Ok <==> width >= 1 && height >= 1 && bytes@.len() == 4 * (width as int) * (
            height as int),
            res is Err ==> res == Err::<PhotoSource, RenderError>(RenderError::Resource),
            res matches Ok(p) ==> p == (PhotoSource { width, height, bytes }),
    {
        proof {
            assert(0 <= 4 * (width as int) * (height as int) < 0x1_0000_0000_0000_0000_0000)
                by (nonlinear_arith)
                requires
                    0 <= (width as int) < 0x1_0000_0000,
                    0 <= (height as int) < 0x1_0000_0000,
            ;
        }
        let need: u128 = 4 * (width as u128) * (height as u128);
        if width >= 1 && height >= 1 && bytes.len() as u128 == need {
            Ok(PhotoSource { width, height, bytes })
        } else {
            Err(RenderError::Resource)
        }
    }
}

/// What Lanczos3 resampling makes of a raw RGBA buffer: a pure function of
/// the source bytes, the source dimensions and the target dimensions.
pub uninterp spec fn lanczos_resize(pixels: Seq<u8>, sw: nat, sh: nat, w: nat, h: nat) -> Seq<u8>;

/// Relies on image::imageops::resize with the Lanczos3 filter: it returns a
/// buffer of exactly the requested dimensions, computed from the source
/// pixels and the dimensions alone; an RGBA buffer stores four bytes per
/// pixel, row-major. image::RgbaImage::from_raw repacks the given bytes (it
/// is `Some` whenever the buffer length matches the dimensions), and
/// into_raw hands the result's bytes back.
#[verifier::external_body]
fn lanczos_resize_bytes(bytes: &Vec<u8>, sw: u32, sh: u32, w: u32, h: u32) -> (r: Vec<u8>)
    requires
        sw >= 1,
        sh >= 1,
        bytes@.len() == 4 * (sw as int) * (sh as int),
        w >= 1,
        h >= 1,
    ensures
        r@ == lanczos_resize(bytes@, sw as nat, sh as nat, w as nat, h as nat),
        r@.len() == 4 * (w as int) * (h as int),
{
    let img = image::RgbaImage::from_raw(sw, sh, bytes.clone()).unwrap();
    let resized = image::imageops::resize(&img, w, h, image::imageops::FilterType::Lanczos3);
    resized.into_raw()
}

/// The color the photographic patch holds at flat index `i`: the four
/// resampled bytes at that pixel.
pub open spec fn photo_texel_spec(src: Seq<u8>, sw: nat, sh: nat, w: nat, h: nat, i: int) -> Rgba8 {
    let bytes = lanczos_resize(src, sw, sh, w, h);
    Rgba8 { r: bytes[4 * i], g: bytes[4 * i + 1], b: bytes[4 * i + 2], a: bytes[4 * i + 3] }
}

/// Crops/resizes the source photograph to exactly `w` by `h` pixels with a
/// high-quality resampling filter and packs it into a raster patch.
pub fn photo_patch(photo: &PhotoSource, w: u32, h: u32) -> (r: RasterPatch)
    requires
        photo.wf(),
        1 <= w as int <= MAX_PATCH_DIM,
        1 <= h as int <= MAX_PATCH_DIM,
        4 * (w as int) * (h as int) <= usize::MAX,
    ensures
        r.wf(),
        r.width == w,
        r.height == h,
        forall|i: int|
            0 <= i < r.pixels@.len() ==> #[trigger] r.pixels@[i] == photo_texel_spec(
                photo.bytes@,
                photo.width as nat,
                photo.height as nat,
                w as nat,
                h as nat,
                i,
            ),
{
    let bytes = lanczos_resize_bytes(&photo.bytes, photo.width, photo.height, w, h);
    proof {
        assert(4 * (w as int) * (h as int) == (w as int) * (h as int) * 4) by (nonlinear_arith);
        assert(1 <= (w as int) * (h as int) <= 4 * (w as int) * (h as int)) by (nonlinear_arith)
            requires
                w as int >= 1,
                h as int >= 1,
        ;
    }
    let count: usize = (w as usize) * (h as usize);
    let mut pixels: Vec<Rgba8> = Vec::new();
    let mut i: usize = 0;
    while i < count
        invariant
            photo.wf(),
            count == (w as int) * (h as int),
            4 * count <= usize::MAX,
            bytes@.len() == 4 * count,
            bytes@ == lanczos_resize(
                photo.bytes@,
                photo.width as nat,
                photo.height as nat,
                w as nat,
                h as nat,
            ),
            i <= count,
            pixels@.len() == i,
            forall|k: int|
                0 <= k < i ==> #[trigger] pixels@[k] == photo_texel_spec(
                    photo.bytes@,
                    photo.width as nat,
                    photo.height as nat,
                    w as nat,
                    h as nat,
                    k,
                ),
        decreases count - i,
    {
        proof {
            assert(4 * (i as int) + 3 < 4 * (count as int));
        }
        let px = Rgba8 {
            r: bytes[4 * i],
            g: bytes[4 * i + 1],
            b: bytes[4 * i + 2],
            a: bytes[4 * i + 3],
        };
        pixels.push(px);
        i = i + 1;
    }
    RasterPatch { width: w, height: h, pixels }
}

/// A raster patch bound to a target bounding box: a polygon fill source.
/// Canvas coordinates inside the box map affinely onto the patch; outside
/// the box the patch coordinates are clamped to its edges.
pub struct Pattern {
    pub patch: RasterPatch,
    pub target: BoundingBox,
}

/// `v` clamped into `[0, hi]`.
pub open spec fn clamp_spec(v: int, hi: int) -> int {
    if v < 0 {
        0
    } else if v > hi {
        hi
    } else {
        v
    }
}

impl Pattern {
    pub open spec fn wf(self) -> bool {
        &&& self.patch.wf()
        &&& self.target.width_spec() >= 1
        &&& self.target.height_spec() >= 1
        &&& -2 * COORD_LIMIT <= self.target.min_x <= self.target.max_x <= 2 * COORD_LIMIT
        &&& -2 * COORD_LIMIT <= self.target.min_y <= self.target.max_y <= 2 * COORD_LIMIT
    }

    /// The patch pixel sampled for canvas position `(x, y)` (nearest
    /// sampling).
    pub open spec fn sample_spec(self, x: int, y: int) -> Rgba8 {
        let bw = self.target.width_spec();
        let bh = self.target.height_spec();
        let pw = self.patch.width as int;
        let ph = self.patch.height as int;
        let dx = clamp_spec(x - self.target.min_x, bw);
        let dy = clamp_spec(y - self.target.min_y, bh);
        let px = clamp_spec((dx * pw) / bw, pw - 1);
        let py = clamp_spec((dy * ph) / bh, ph - 1);
        self.patch.pixels@[py * pw + px]
    }

    /// Samples the fill source at a canvas position.
    pub fn sample(&self, x: i64, y: i64) -> (c: Rgba8)
        requires
            self.wf(),
            -2 * COORD_LIMIT <= x <= 2 * COORD_LIMIT,
            -2 * COORD_LIMIT <= y <= 2 * COORD_LIMIT,
        ensures
            c == self.sample_spec(x as int, y as int),
    {
        let bw = self.target.max_x - self.target.min_x;
        let bh = self.target.max_y - self.target.min_y;
        let pw = self.patch.width as i64;
        let ph = self.patch.height as i64;
        let dx = clamp_to(x - self.target.min_x, bw);
        let dy = clamp_to(y - self.target.min_y, bh);
        proof {
            assert(0 <= (dx as int) * (pw as int) <= (4 * COORD_LIMIT as int) * (
            MAX_PATCH_DIM as int)) by (nonlinear_arith)
                requires
                    0 <= dx as int <= 4 * COORD_LIMIT as int,
                    0 <= pw as int <= MAX_PATCH_DIM as int,
            ;
            assert(0 <= (dy as int) * (ph as int) <= (4 * COORD_LIMIT as int) * (
            MAX_PATCH_DIM as int)) by (nonlinear_arith)
                requires
                    0 <= dy as int <= 4 * COORD_LIMIT as int,
                    0 <= ph as int <= MAX_PATCH_DIM as int,
            ;
        }
        let px = clamp_to((dx * pw) / bw, pw - 1);
        let py = clamp_to((dy * ph) / bh, ph - 1);
        proof {
            assert(0 <= (py as int) * (pw as int) + (px as int) < (ph as int) * (pw as int))
                by (nonlinear_arith)
                requires
                    0 <= (py as int) < (ph as int),
                    0 <= (px as int) < (pw as int),
            ;
            assert((self.patch.width as int) * (self.patch.height as int) == (
            self.patch.height as int) * (self.patch.width as int)) by (nonlinear_arith);
            assert((ph as int) * (pw as int) <= (MAX_PATCH_DIM as int) * (MAX_PATCH_DIM as int))
                by (nonlinear_arith)
                requires
                    0 <= ph as int <= MAX_PATCH_DIM as int,
                    0 <= pw as int <= MAX_PATCH_DIM as int,
            ;
        }
        let n = self.patch.pixels.len();
        proof {
            assert((py as int) * (pw as int) + (px as int) < n as int);
        }
        let idx: usize = ((py * pw) + px) as usize;
        self.patch.pixels[idx]
    }
}

/// `v` clamped into `[0, hi]`.
fn clamp_to(v: i64, hi: i64) -> (r: i64)
    requires
        hi >= 0,
    ensures
        r == clamp_spec(v as int, hi as int),
        0 <= r <= hi,
{
    if v < 0 {
        0
    } else if v > hi {
        hi
    } else {
        v
    }
}

} // verus!
