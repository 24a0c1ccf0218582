use vstd::prelude::*;

use crate::geom::{BoundingBox, Point, Quad, COORD_LIMIT, FIXED_ONE};
use crate::grid::{fan_vertex_spec, stops_wf, two_fan_grid, FanAnchors};
use crate::palette::{white_color, Palette, Rgba8};
use crate::pattern::{photo_texel_spec, photo_patch, Pattern, PhotoSource};
use crate::rng::{pcg_draw, SeededRandomStream};
use crate::smooth::{chaikin, chaikin_spec, lemma_pow2_monotonic, pow2};
use crate::texture::{synthesize, texel_spec, RasterPatch, MAX_PATCH_DIM};
use crate::treatment::{select_treatment, treatment_of, Treatment};
use crate::warp::{warp_point_spec, MAX_WARP, WARP_LIMIT};
use crate::RenderError;

verus! {

/// Most corner-cutting passes a render may ask for.
pub const MAX_SMOOTHING: u32 = 8;

/// The immutable configuration of one render: anchors, stop sequences, warp
/// parameters, the stream seed, the forced photographic quad, the bounding
/// box margin and the smoothing depth.
pub struct RenderConfig {
    pub anchors: FanAnchors,
    pub vert_stops: Vec<i64>,
    pub left_stops: Vec<i64>,
    pub right_stops: Vec<i64>,
    pub noise_scale: i64,
    pub noise_factor: i64,
    pub warp_seed: u64,
    pub seed: u64,
    pub override_index: usize,
    pub bbox_margin: i64,
    pub smoothing: u32,
}

impl RenderConfig {
    pub open spec fn wf(self) -> bool {
        &&& self.anchors.wf()
        &&& self.anchors.in_box(0, WARP_LIMIT as int)
        &&& 0 <= self.noise_scale <= FIXED_ONE
        &&& 0 <= self.noise_factor <= MAX_WARP
        &&& 1 <= self.bbox_margin <= FIXED_ONE
        &&& self.smoothing <= MAX_SMOOTHING
        &&& self.left_stops@.len() + self.right_stops@.len() <= usize::MAX
    }
}

/// How many palette draws a treatment needs beyond the base color: the
/// two-tone families draw their two tones, the others draw nothing more.
pub open spec fn extra_draws(t: Treatment) -> int {
    match t {
        Treatment::Wood => 2,
        Treatment::Marble => 2,
        Treatment::Ridge => 2,
        Treatment::Stripe => 2,
        Treatment::Sand => 2,
        Treatment::Granite => 2,
        _ => 0,
    }
}

/// The stream history (the bounds of all draws, oldest first) before quad
/// `k`'s own draws begin. Every quad draws its base color first; a
/// non-override quad then draws its treatment; a two-tone treatment then
/// draws its two tones.
pub open spec fn quad_hist_before(cfg: RenderConfig, ncolors: u64, k: int) -> Seq<u64>
    decreases k, 0int,
{
    if k <= 0 {
        Seq::empty()
    } else {
        quad_hist_after(cfg, ncolors, k - 1)
    }
}

/// The treatment quad `k` resolves to: the photographic treatment at the
/// override index, else the bucket of the draw right after the base color.
pub open spec fn quad_treatment_spec(cfg: RenderConfig, ncolors: u64, k: int) -> Treatment
    decreases k, 1int,
{
    if k == cfg.override_index as int {
        Treatment::Photo
    } else {
        treatment_of(pcg_draw(cfg.seed, quad_hist_before(cfg, ncolors, k).push(ncolors).push(100)))
    }
}

/// The stream history once quad `k`'s draws are done.
pub open spec fn quad_hist_after(cfg: RenderConfig, ncolors: u64, k: int) -> Seq<u64>
    decreases k, 2int,
{
    let h1 = quad_hist_before(cfg, ncolors, k).push(ncolors);
    if k == cfg.override_index as int {
        h1
    } else {
        let h2 = h1.push(100);
        if extra_draws(quad_treatment_spec(cfg, ncolors, k)) == 2 {
            h2.push(ncolors).push(ncolors)
        } else {
            h2
        }
    }
}

/// Quad `k`'s base color: the palette color at its first draw.
pub open spec fn base_color_spec(cfg: RenderConfig, colors: Seq<Rgba8>, k: int) -> Rgba8 {
    let n = colors.len() as u64;
    colors[pcg_draw(cfg.seed, quad_hist_before(cfg, n, k).push(n)) as int]
}

/// Quad `k`'s two tone colors (for a non-override two-tone treatment):
/// `which` is 0 or 1.
pub open spec fn tone_color_spec(cfg: RenderConfig, colors: Seq<Rgba8>, k: int, which: int) -> Rgba8 {
    let n = colors.len() as u64;
    let h = quad_hist_before(cfg, n, k).push(n).push(100).push(n);
    colors[pcg_draw(cfg.seed, if which == 0 {
        h
    } else {
        h.push(n)
    }) as int]
}

/// Columns of the vertex sheet the configuration builds.
pub open spec fn plan_cols(cfg: RenderConfig) -> int {
    cfg.left_stops@.len() + cfg.right_stops@.len() - 1
}

/// How many quads the configuration yields.
pub open spec fn plan_quad_count(cfg: RenderConfig) -> int {
    (cfg.vert_stops@.len() - 1) * (plan_cols(cfg) - 1)
}

/// The warped grid vertex at sheet row `r`, column `c`.
pub open spec fn warped_vertex_spec(cfg: RenderConfig, r: int, c: int) -> Point {
    warp_point_spec(
        fan_vertex_spec(cfg.anchors, cfg.vert_stops@, cfg.left_stops@, cfg.right_stops@, r, c),
        cfg.noise_scale as int,
        cfg.noise_factor as int,
        cfg.warp_seed,
    )
}

/// The `k`-th warped quad, in grid traversal order.
pub open spec fn warped_quad_spec(cfg: RenderConfig, k: int) -> Quad {
    let r = k / (plan_cols(cfg) - 1);
    let c = k % (plan_cols(cfg) - 1);
    Quad {
        bl: warped_vertex_spec(cfg, r + 1, c),
        tl: warped_vertex_spec(cfg, r, c),
        tr: warped_vertex_spec(cfg, r, c + 1),
        br: warped_vertex_spec(cfg, r + 1, c + 1),
    }
}

/// The smaller of two values.
pub open spec fn min_spec(a: int, b: int) -> int {
    if a <= b {
        a
    } else {
        b
    }
}

/// The larger of two values.
pub open spec fn max_spec(a: int, b: int) -> int {
    if a <= b {
        b
    } else {
        a
    }
}

/// The bounding box of a quad, padded by the margin.
pub open spec fn quad_bbox_spec(q: Quad, margin: int) -> BoundingBox {
    BoundingBox {
        min_x: (min_spec(
            min_spec(q.bl.x as int, q.tl.x as int),
            min_spec(q.tr.x as int, q.br.x as int),
        ) - margin) as i64,
        min_y: (min_spec(
            min_spec(q.bl.y as int, q.tl.y as int),
            min_spec(q.tr.y as int, q.br.y as int),
        ) - margin) as i64,
        max_x: (max_spec(
            max_spec(q.bl.x as int, q.tl.x as int),
            max_spec(q.tr.x as int, q.br.x as int),
        ) + margin) as i64,
        max_y: (max_spec(
            max_spec(q.bl.y as int, q.tl.y as int),
            max_spec(q.tr.y as int, q.br.y as int),
        ) + margin) as i64,
    }
}

/// The bounding box of one quad, padded by a margin. Every vertex of the
/// quad lies inside it.
pub fn quad_bbox(q: Quad, margin: i64) -> (r: BoundingBox)
    requires
        q.all_in_bounds(),
        0 <= margin <= COORD_LIMIT,
    ensures
        r == quad_bbox_spec(q, margin as int),
        r.contains(q.bl) && r.contains(q.tl) && r.contains(q.tr) && r.contains(q.br),
        r.width_spec() >= 2 * margin,
        r.height_spec() >= 2 * margin,
        -2 * COORD_LIMIT <= r.min_x <= r.max_x <= 2 * COORD_LIMIT,
        -2 * COORD_LIMIT <= r.min_y <= r.max_y <= 2 * COORD_LIMIT,
{
    let min_x = min4(q.bl.x, q.tl.x, q.tr.x, q.br.x);
    let min_y = min4(q.bl.y, q.tl.y, q.tr.y, q.br.y);
    let max_x = max4(q.bl.x, q.tl.x, q.tr.x, q.br.x);
    let max_y = max4(q.bl.y, q.tl.y, q.tr.y, q.br.y);
    BoundingBox {
        min_x: min_x - margin,
        min_y: min_y - margin,
        max_x: max_x + margin,
        max_y: max_y + margin,
    }
}

fn min4(a: i64, b: i64, c: i64, d: i64) -> (r: i64)
    ensures
        r == min_spec(min_spec(a as int, b as int), min_spec(c as int, d as int)),
{
    let ab = if a <= b {
        a
    } else {
        b
    };
    let cd = if c <= d {
        c
    } else {
        d
    };
    if ab <= cd {
        ab
    } else {
        cd
    }
}

fn max4(a: i64, b: i64, c: i64, d: i64) -> (r: i64)
    ensures
        r == max_spec(max_spec(a as int, b as int), max_spec(c as int, d as int)),
{
    let ab = if a <= b {
        b
    } else {
        a
    };
    let cd = if c <= d {
        d
    } else {
        c
    };
    if ab <= cd {
        cd
    } else {
        ab
    }
}

/// A bounding box edge clamped into a usable patch dimension.
pub open spec fn patch_dim_spec(v: int) -> int {
    if v < 1 {
        1
    } else if v > MAX_PATCH_DIM {
        MAX_PATCH_DIM as int
    } else {
        v
    }
}

fn patch_dim(v: i64) -> (r: u32)
    ensures
        r as int == patch_dim_spec(v as int),
        1 <= r as int <= MAX_PATCH_DIM,
{
    if v < 1 {
        1
    } else if v > MAX_PATCH_DIM {
        MAX_PATCH_DIM as u32
    } else {
        v as u32
    }
}

/// The tuned shape parameter each texture family is synthesized with.
pub open spec fn family_param_spec(t: Treatment) -> i64 {
    match t {
        Treatment::Stipple => 10,
        Treatment::Wood => 5000,
        Treatment::Marble => 5000,
        Treatment::Ridge => 5000,
        Treatment::Stripe => 8,
        Treatment::Sand => 5000,
        Treatment::Granite => 5000,
        Treatment::Grain => 300,
        Treatment::Photo => 1,
    }
}

fn family_param(t: Treatment) -> (r: i64)
    ensures
        r == family_param_spec(t),
        1 <= r <= FIXED_ONE,
{
    match t {
        Treatment::Stipple => 10,
        Treatment::Wood => 5000,
        Treatment::Marble => 5000,
        Treatment::Ridge => 5000,
        Treatment::Stripe => 8,
        Treatment::Sand => 5000,
        Treatment::Granite => 5000,
        Treatment::Grain => 300,
        Treatment::Photo => 1,
    }
}

/// A polygon fill source: a flat color, or a pattern bound to a box.
pub enum FillSource {
    Flat(Rgba8),
    Textured(Pattern),
}

/// One fill pass over a quad's polygon, with an optional stroke color.
pub struct PaintLayer {
    pub fill: FillSource,
    pub stroke: Option<Rgba8>,
}

/// Everything the compositor needs to paint one quad: the smoothed polygon,
/// its padded bounding box, and the fill layers in painting order. Quads are
/// painted in plan order, so later quads draw over earlier ones.
pub struct QuadPlan {
    pub index: usize,
    pub treatment: Treatment,
    pub polygon: Vec<Point>,
    pub bbox: BoundingBox,
    pub layers: Vec<PaintLayer>,
}

/// A patch holds exactly the named texture family.
pub open spec fn patch_matches_texture(
    p: RasterPatch,
    kind: Treatment,
    w: int,
    h: int,
    c1: Rgba8,
    c2: Rgba8,
    param: int,
) -> bool {
    &&& p.width as int == w
    &&& p.height as int == h
    &&& p.pixels@.len() == w * h
    &&& forall|i: int|
        0 <= i < p.pixels@.len() ==> #[trigger] p.pixels@[i] == texel_spec(
            kind,
            i % w,
            i / w,
            c1,
            c2,
            param,
        )
}

/// A patch holds exactly the resampled photograph.
pub open spec fn patch_matches_photo(p: RasterPatch, photo: PhotoSource, w: int, h: int) -> bool {
    &&& p.width as int == w
    &&& p.height as int == h
    &&& p.pixels@.len() == w * h
    &&& forall|i: int|
        0 <= i < p.pixels@.len() ==> #[trigger] p.pixels@[i] == photo_texel_spec(
            photo.bytes@,
            photo.width as nat,
            photo.height as nat,
            w as nat,
            h as nat,
            i,
        )
}

/// What the plan for quad `k` must hold: the smoothed warped polygon, the
/// padded bounding box covering the quad, the treatment the stream resolves,
/// and the layers that treatment paints, every patch pinned pixel by pixel.
pub open spec fn plan_matches(
    cfg: RenderConfig,
    colors: Seq<Rgba8>,
    photo: PhotoSource,
    k: int,
    plan: QuadPlan,
) -> bool {
    let q = warped_quad_spec(cfg, k);
    let t = quad_treatment_spec(cfg, colors.len() as u64, k);
    let c = base_color_spec(cfg, colors, k);
    let bbox = quad_bbox_spec(q, cfg.bbox_margin as int);
    let w = patch_dim_spec(bbox.width_spec());
    let h = patch_dim_spec(bbox.height_spec());
    let white = Rgba8 { r: 255, g: 255, b: 255, a: 255 };
    &&& plan.index == k
    &&& plan.treatment == t
    &&& plan.polygon@ == chaikin_spec(q.polygon_spec(), cfg.smoothing as nat)
    &&& plan.bbox == bbox
    &&& bbox.contains(q.bl) && bbox.contains(q.tl) && bbox.contains(q.tr) && bbox.contains(q.br)
    &&& match t {
        Treatment::Stipple => {
            &&& plan.layers@.len() == 2
            &&& plan.layers@[0].fill == FillSource::Flat(c)
            &&& plan.layers@[0].stroke == Some(c)
            &&& plan.layers@[1].stroke is None
            &&& plan.layers@[1].fill matches FillSource::Textured(pat) && pat.target == bbox
                && patch_matches_texture(pat.patch, Treatment::Stipple, w, h, white, white, 10)
        },
        Treatment::Grain => {
            &&& plan.layers@.len() == 2
            &&& plan.layers@[0].fill == FillSource::Flat(c)
            &&& plan.layers@[0].stroke == Some(c)
            &&& plan.layers@[1].stroke == Some(c)
            &&& plan.layers@[1].fill matches FillSource::Textured(pat) && pat.target == bbox
                && patch_matches_texture(pat.patch, Treatment::Grain, w, h, c, c, 300)
        },
        Treatment::Photo => {
            &&& plan.layers@.len() == 1
            &&& plan.layers@[0].stroke is None
            &&& plan.layers@[0].fill matches FillSource::Textured(pat) && pat.target == bbox
                && patch_matches_photo(pat.patch, photo, w, h)
        },
        _ => {
            &&& plan.layers@.len() == 1
            &&& plan.layers@[0].stroke is None
            &&& plan.layers@[0].fill matches FillSource::Textured(pat) && pat.target == bbox
                && patch_matches_texture(
                pat.patch,
                t,
                w,
                h,
                tone_color_spec(cfg, colors, k, 0),
                tone_color_spec(cfg, colors, k, 1),
                family_param_spec(t) as int,
            )
        },
    }
}

/// Plans a whole render: builds the grid, warps it, and resolves every
/// quad's treatment, colors, patch, bounding box and smoothed polygon, in
/// grid traversal order, consuming the seeded stream in a fixed order. The
/// plan is a function of the configuration, the palette and the photograph
/// alone, which is what makes renders reproducible.
#[verifier::rlimit(100)]
pub fn plan_render(cfg: &RenderConfig, palette: &Palette, photo: &PhotoSource) -> (res: Result<
    Vec<QuadPlan>,
    RenderError,
>)
    requires
        cfg.wf(),
        palette.colors_spec().len() >= 1,
        photo.wf(),
    ensures
        res is Ok <==> stops_wf(cfg.vert_stops@) && stops_wf(cfg.left_stops@) && stops_wf(
            cfg.right_stops@,
        ),
        res is Err ==> res == Err::<Vec<QuadPlan>, RenderError>(RenderError::InvalidStops),
        res matches Ok(plans) ==> {
            &&& plans@.len() == plan_quad_count(*cfg)
            &&& forall|k: int|
                0 <= k < plans@.len() ==> plan_matches(
                    *cfg,
                    palette.colors_spec(),
                    *photo,
                    k,
                    #[trigger] plans@[k],
                )
        },
{
    let grid = match two_fan_grid(
        cfg.anchors,
        &cfg.vert_stops,
        &cfg.left_stops,
        &cfg.right_stops,
    ) {
        Ok(g) => g,
        Err(e) => {
            return Err(e);
        },
    };
    proof {
        assert(cfg.anchors.in_box(0, WARP_LIMIT as int));
    }
    let warped = grid.warped(cfg.noise_scale, cfg.noise_factor, cfg.warp_seed);
    let quads = warped.quads();
    proof {
        assert(warped.quad_count() == plan_quad_count(*cfg));
        assert forall|k: int| 0 <= k < quads@.len() implies #[trigger] quads@[k]
            == warped_quad_spec(*cfg, k) by {
            let rows = warped.rows as int;
            let cols = warped.cols as int;
            let qcols = cols - 1;
            vstd::arithmetic::div_mod::lemma_fundamental_div_mod(k, qcols);
            let rr = k / qcols;
            let cc = k % qcols;
            assert(0 <= cc < qcols);
            assert(0 <= rr < rows - 1) by (nonlinear_arith)
                requires
                    qcols >= 1,
                    0 <= k < (rows - 1) * qcols,
                    k == qcols * rr + cc,
                    0 <= cc < qcols,
            ;
            assert(plan_cols(*cfg) - 1 == qcols);
            lemma_vertex_correspondence(*cfg, grid, warped, rr, cc);
            lemma_vertex_correspondence(*cfg, grid, warped, rr + 1, cc);
            lemma_vertex_correspondence(*cfg, grid, warped, rr, cc + 1);
            lemma_vertex_correspondence(*cfg, grid, warped, rr + 1, cc + 1);
        }
    }
    let n = quads.len();
    let mut plans: Vec<QuadPlan> = Vec::new();
    let mut stream = SeededRandomStream::new(cfg.seed);
    let mut k: usize = 0;
    while k < n
        invariant
            cfg.wf(),
            palette.colors_spec().len() >= 1,
            photo.wf(),
            n == plan_quad_count(*cfg),
            quads@.len() == n,
            forall|i: int| 0 <= i < n ==> #[trigger] quads@[i] == warped_quad_spec(*cfg, i),
            forall|i: int| 0 <= i < n ==> (#[trigger] quads@[i]).all_in_bounds(),
            k <= n,
            plans@.len() == k,
            stream.seed_spec() == cfg.seed,
            stream.history() == quad_hist_before(*cfg, palette.colors_spec().len() as u64, k as int),
            forall|i: int|
                0 <= i < k ==> plan_matches(
                    *cfg,
                    palette.colors_spec(),
                    *photo,
                    i,
                    #[trigger] plans@[i],
                ),
        decreases n - k,
    {
        let q = quads[k];
        let plan = plan_one_quad(cfg, palette, photo, &mut stream, k, q);
        plans.push(plan);
        k = k + 1;
    }
    Ok(plans)
}


/// Plans one quad: consumes the quad's draws from the stream in the fixed
/// order (base color, then treatment unless overridden, then the two tones
/// where the treatment needs them) and assembles its paint layers.
#[verifier::rlimit(100)]
fn plan_one_quad(
    cfg: &RenderConfig,
    palette: &Palette,
    photo: &PhotoSource,
    stream: &mut SeededRandomStream,
    k: usize,
    q: Quad,
) -> (plan: QuadPlan)
    requires
        cfg.wf(),
        palette.colors_spec().len() >= 1,
        photo.wf(),
        q == warped_quad_spec(*cfg, k as int),
        q.all_in_bounds(),
        old(stream).seed_spec() == cfg.seed,
        old(stream).history() == quad_hist_before(*cfg, palette.colors_spec().len() as u64, k as int),
    ensures
        final(stream).seed_spec() == cfg.seed,
        final(stream).history() == quad_hist_after(*cfg, palette.colors_spec().len() as u64, k as int),
        plan_matches(*cfg, palette.colors_spec(), *photo, k as int, plan),
{
    let ghost ncolors = palette.colors_spec().len() as u64;
    let ghost hist0 = stream.history();
    let c = palette.sample(stream);
    let t = select_treatment(k, cfg.override_index, stream);
    proof {
        assert(quad_treatment_spec(*cfg, ncolors, k as int) == t);
    }
    let bbox = quad_bbox(q, cfg.bbox_margin);
    let w = patch_dim(bbox.max_x - bbox.min_x);
    let h = patch_dim(bbox.max_y - bbox.min_y);
    proof {
        assert((w as int) * (h as int) <= (MAX_PATCH_DIM as int) * (MAX_PATCH_DIM as int)
            && (w as int) * (h as int) >= 1) by (nonlinear_arith)
            requires
                1 <= w as int <= MAX_PATCH_DIM as int,
                1 <= h as int <= MAX_PATCH_DIM as int,
        ;
        assert(4 * (w as int) * (h as int) <= 4 * (MAX_PATCH_DIM as int) * (MAX_PATCH_DIM as int))
            by (nonlinear_arith)
            requires
                1 <= w as int <= MAX_PATCH_DIM as int,
                1 <= h as int <= MAX_PATCH_DIM as int,
        ;
        assert(usize::MAX >= 0xffff_ffff);
    }
    let mut layers: Vec<PaintLayer> = Vec::new();
    match t {
        Treatment::Photo => {
            let patch = photo_patch(photo, w, h);
            layers.push(
                PaintLayer {
                    fill: FillSource::Textured(Pattern { patch, target: bbox }),
                    stroke: None,
                },
            );
        },
        Treatment::Stipple => {
            let white = white_color();
            let patch = synthesize(Treatment::Stipple, w, h, white, white, 10);
            layers.push(PaintLayer { fill: FillSource::Flat(c), stroke: Some(c) });
            layers.push(
                PaintLayer {
                    fill: FillSource::Textured(Pattern { patch, target: bbox }),
                    stroke: None,
                },
            );
        },
        Treatment::Grain => {
            let patch = synthesize(Treatment::Grain, w, h, c, c, 300);
            layers.push(PaintLayer { fill: FillSource::Flat(c), stroke: Some(c) });
            layers.push(
                PaintLayer {
                    fill: FillSource::Textured(Pattern { patch, target: bbox }),
                    stroke: Some(c),
                },
            );
        },
        _ => {
            let c1 = palette.sample(stream);
            let c2 = palette.sample(stream);
            let p = family_param(t);
            let patch = synthesize(t, w, h, c1, c2, p);
            layers.push(
                PaintLayer {
                    fill: FillSource::Textured(Pattern { patch, target: bbox }),
                    stroke: None,
                },
            );
        },
    }
    let poly4 = q.polygon();
    proof {
        lemma_pow2_monotonic(cfg.smoothing as nat, MAX_SMOOTHING as nat);
        assert(pow2(MAX_SMOOTHING as nat) == 256) by {
            reveal_with_fuel(pow2, 9);
        }
        assert(poly4@.len() * pow2(cfg.smoothing as nat) <= 4 * 256) by (nonlinear_arith)
            requires
                poly4@.len() == 4,
                pow2(cfg.smoothing as nat) <= 256,
        ;
    }
    let polygon = chaikin(&poly4, cfg.smoothing);
    let plan = QuadPlan { index: k, treatment: t, polygon, bbox, layers };
    proof {
        let ki = k as int;
        if ki == cfg.override_index as int {
            assert(stream.history() == hist0.push(ncolors));
        } else if extra_draws(t) == 2 {
            assert(stream.history() == hist0.push(ncolors).push(100).push(ncolors).push(ncolors));
        } else {
            assert(stream.history() == hist0.push(ncolors).push(100));
        }
        assert(stream.history() == quad_hist_after(*cfg, ncolors, ki));
        assert(plan_matches(*cfg, palette.colors_spec(), *photo, k as int, plan));
    }
    plan
}

/// A warped sheet vertex read through the grid equals its closed form.
proof fn lemma_vertex_correspondence(
    cfg: RenderConfig,
    grid: crate::grid::Grid,
    warped: crate::grid::Grid,
    r: int,
    c: int,
)
    requires
        grid.wf(),
        warped.rows == grid.rows,
        warped.cols == grid.cols,
        warped.verts@.len() == grid.verts@.len(),
        grid.rows == cfg.vert_stops@.len(),
        grid.cols == plan_cols(cfg),
        0 <= r < grid.rows,
        0 <= c < grid.cols,
        forall|rr: int, cc: int|
            0 <= rr < grid.rows && 0 <= cc < grid.cols ==> #[trigger] grid.vert_at_spec(rr, cc)
                == fan_vertex_spec(
                cfg.anchors,
                cfg.vert_stops@,
                cfg.left_stops@,
                cfg.right_stops@,
                rr,
                cc,
            ),
        forall|i: int|
            0 <= i < warped.verts@.len() ==> #[trigger] warped.verts@[i] == warp_point_spec(
                grid.verts@[i],
                cfg.noise_scale as int,
                cfg.noise_factor as int,
                cfg.warp_seed,
            ),
    ensures
        warped.vert_at_spec(r, c) == warped_vertex_spec(cfg, r, c),
{
    let cols = grid.cols as int;
    let idx = r * cols + c;
    assert(0 <= idx < (grid.rows as int) * (grid.cols as int)) by (nonlinear_arith)
        requires
            idx == r * cols + c,
            cols == grid.cols as int,
            0 <= r < grid.rows as int,
            0 <= c < grid.cols as int,
    ;
    assert(grid.vert_at_spec(r, c) == fan_vertex_spec(
        cfg.anchors,
        cfg.vert_stops@,
        cfg.left_stops@,
        cfg.right_stops@,
        r,
        c,
    ));
    assert(grid.vert_at_spec(r, c) == grid.verts@[idx]);
    assert(warped.verts@[idx] == warp_point_spec(
        grid.verts@[idx],
        cfg.noise_scale as int,
        cfg.noise_factor as int,
        cfg.warp_seed,
    ));
    assert(warped.vert_at_spec(r, c) == warped.verts@[idx]);
}

/// Two fill layers look the same to a compositor: same stroke, and the same
/// flat color or the same pattern, pixel for pixel over the same target box.
pub open spec fn layer_equivalent(l1: PaintLayer, l2: PaintLayer) -> bool {
    &&& l1.stroke == l2.stroke
    &&& match (l1.fill, l2.fill) {
        (FillSource::Flat(a), FillSource::Flat(b)) => a == b,
        (FillSource::Textured(p1), FillSource::Textured(p2)) => {
            &&& p1.target == p2.target
            &&& p1.patch.width == p2.patch.width
            &&& p1.patch.height == p2.patch.height
            &&& p1.patch.pixels@ == p2.patch.pixels@
        },
        _ => false,
    }
}

/// Two patches of the same texture family, dimensions, colors and parameter
/// hold the same pixels.
proof fn lemma_texture_patches_equal(
    pa: RasterPatch,
    pb: RasterPatch,
    kind: Treatment,
    w: int,
    h: int,
    c1: Rgba8,
    c2: Rgba8,
    param: int,
)
    requires
        patch_matches_texture(pa, kind, w, h, c1, c2, param),
        patch_matches_texture(pb, kind, w, h, c1, c2, param),
    ensures
        pa.width == pb.width,
        pa.height == pb.height,
        pa.pixels@ == pb.pixels@,
{
    assert(pa.pixels@ =~= pb.pixels@);
}

/// Two patches resampled from the same photograph at the same dimensions
/// hold the same pixels.
proof fn lemma_photo_patches_equal(
    pa: RasterPatch,
    pb: RasterPatch,
    photo: PhotoSource,
    w: int,
    h: int,
)
    requires
        patch_matches_photo(pa, photo, w, h),
        patch_matches_photo(pb, photo, w, h),
    ensures
        pa.width == pb.width,
        pa.height == pb.height,
        pa.pixels@ == pb.pixels@,
{
    assert(pa.pixels@ =~= pb.pixels@);
}

/// Law: determinism. For a fixed configuration, palette and photograph, any
/// two plans the planner may produce for the same quad are observably
/// identical: same treatment, same smoothed polygon, same bounding box, and
/// the same layers, pixel for pixel. Together with `plan_render`'s
/// postcondition, two independent renders of the same inputs produce
/// identical plans, and so, painted by any deterministic compositor,
/// pixel-identical canvases.
pub proof fn lemma_render_deterministic(
    cfg: RenderConfig,
    colors: Seq<Rgba8>,
    photo: PhotoSource,
    k: int,
    p1: QuadPlan,
    p2: QuadPlan,
)
    requires
        plan_matches(cfg, colors, photo, k, p1),
        plan_matches(cfg, colors, photo, k, p2),
    ensures
        p1.index == p2.index,
        p1.treatment == p2.treatment,
        p1.polygon@ == p2.polygon@,
        p1.bbox == p2.bbox,
        p1.layers@.len() == p2.layers@.len(),
        forall|j: int|
            0 <= j < p1.layers@.len() ==> layer_equivalent(
                #[trigger] p1.layers@[j],
                p2.layers@[j],
            ),
{
    let t = quad_treatment_spec(cfg, colors.len() as u64, k);
    let q = warped_quad_spec(cfg, k);
    let bbox = quad_bbox_spec(q, cfg.bbox_margin as int);
    let w = patch_dim_spec(bbox.width_spec());
    let h = patch_dim_spec(bbox.height_spec());
    let white = Rgba8 { r: 255, g: 255, b: 255, a: 255 };
    match t {
        Treatment::Stipple => {
            lemma_texture_patches_equal(
                p1.layers@[1].fill->Textured_0.patch,
                p2.layers@[1].fill->Textured_0.patch,
                Treatment::Stipple,
                w,
                h,
                white,
                white,
                10,
            );
            assert(layer_equivalent(p1.layers@[0], p2.layers@[0]));
            assert(layer_equivalent(p1.layers@[1], p2.layers@[1]));
        },
        Treatment::Grain => {
            lemma_texture_patches_equal(
                p1.layers@[1].fill->Textured_0.patch,
                p2.layers@[1].fill->Textured_0.patch,
                Treatment::Grain,
                w,
                h,
                base_color_spec(cfg, colors, k),
                base_color_spec(cfg, colors, k),
                300,
            );
            assert(layer_equivalent(p1.layers@[0], p2.layers@[0]));
            assert(layer_equivalent(p1.layers@[1], p2.layers@[1]));
        },
        Treatment::Photo => {
            lemma_photo_patches_equal(
                p1.layers@[0].fill->Textured_0.patch,
                p2.layers@[0].fill->Textured_0.patch,
                photo,
                w,
                h,
            );
            assert(layer_equivalent(p1.layers@[0], p2.layers@[0]));
        },
        _ => {
            lemma_texture_patches_equal(
                p1.layers@[0].fill->Textured_0.patch,
                p2.layers@[0].fill->Textured_0.patch,
                t,
                w,
                h,
                tone_color_spec(cfg, colors, k, 0),
                tone_color_spec(cfg, colors, k, 1),
                family_param_spec(t) as int,
            );
            assert(layer_equivalent(p1.layers@[0], p2.layers@[0]));
        },
    }
    assert forall|j: int| 0 <= j < p1.layers@.len() implies layer_equivalent(
        #[trigger] p1.layers@[j],
        p2.layers@[j],
    ) by {
    }
}

/// The pixel layout a decoder reported for the source photograph.
#[derive(Clone, Copy, PartialEq, Eq, Structural, Debug)]
pub enum PixelFormat {
    Luma8,
    LumaA8,
    Rgb8,
    Rgba8,
    Luma16,
    LumaA16,
    Rgb16,
    Rgba16,
    RgbF32,
    RgbaF32,
    Other,
}

/// Only 8-bit RGB or RGBA layouts are supported; any other decoded format is
/// a fatal error, with no conversion fallback.
pub fn check_photo_format(f: PixelFormat) -> (res: Result<(), RenderError>)
    ensures
        res is Ok <==> f == PixelFormat::Rgb8 || f == PixelFormat::Rgba8,
        res is Err ==> res == Err::<(), RenderError>(RenderError::UnsupportedFormat),
{
    match f {
        PixelFormat::Rgb8 | PixelFormat::Rgba8 => Ok(()),
        _ => Err(RenderError::UnsupportedFormat),
    }
}

} // verus!
