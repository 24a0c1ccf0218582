use vstd::prelude::*;

verus! {

/// Largest coordinate magnitude the geometry works with; keeps every
/// interpolation product comfortably inside `i64`.
pub const COORD_LIMIT: i64 = 0x4000_0000;

/// Fixed-point denominator for parametric positions along an edge: a stop of
/// `FIXED_ONE` is the far endpoint, `0` the near one.
pub const FIXED_ONE: i64 = 10_000;

/// A 2D coordinate in whole canvas units; anchors, grid vertices and polygon
/// vertices are all points.
#[derive(Clone, Copy, PartialEq, Eq, Structural, Debug)]
pub struct Point {
    pub x: i64,
    pub y: i64,
}

pub open spec fn in_bounds(p: Point) -> bool {
    &&& -COORD_LIMIT <= p.x <= COORD_LIMIT
    &&& -COORD_LIMIT <= p.y <= COORD_LIMIT
}

pub fn pt(x: i64, y: i64) -> (p: Point)
    ensures
        p.x == x,
        p.y == y,
{
    Point { x, y }
}

/// Linear interpolation between two fixed-point values: the value a fraction
/// `t / denom` of the way from `a` to `b`, with the step toward `b` rounded
/// down in magnitude.
pub open spec fn lerp_spec(a: int, b: int, t: int, denom: int) -> int {
    if a <= b {
        a + ((b - a) * t) / denom
    } else {
        a - ((a - b) * t) / denom
    }
}

/// The interpolant stays between its endpoints.
pub proof fn lemma_lerp_bounds(a: int, b: int, t: int, denom: int)
    requires
        0 <= t <= denom,
        0 < denom,
    ensures
        a <= b ==> a <= lerp_spec(a, b, t, denom) <= b,
        b <= a ==> b <= lerp_spec(a, b, t, denom) <= a,
{
    lemma_scaled_fraction_bounds(if a <= b {
        b - a
    } else {
        a - b
    }, t, denom);
}

/// For `0 <= d` and `0 <= t <= denom`, the scaled fraction `(d * t) / denom`
/// lies between `0` and `d`.
pub proof fn lemma_scaled_fraction_bounds(d: int, t: int, denom: int)
    requires
        0 <= d,
        0 <= t <= denom,
        0 < denom,
    ensures
        0 <= (d * t) / denom <= d,
{
    assert(0 <= d * t <= d * denom) by (nonlinear_arith)
        requires
            0 <= d,
            0 <= t <= denom,
    ;
    assert(0 <= (d * t) / denom <= d) by (nonlinear_arith)
        requires
            0 < denom,
            0 <= d * t <= d * denom,
    ;
}

/// Interpolates between `a` and `b` at parameter `t` out of `denom`.
pub fn lerp(a: i64, b: i64, t: i64, denom: i64) -> (r: i64)
    requires
        -COORD_LIMIT <= a <= COORD_LIMIT,
        -COORD_LIMIT <= b <= COORD_LIMIT,
        0 <= t <= denom,
        0 < denom <= FIXED_ONE,
    ensures
        r == lerp_spec(a as int, b as int, t as int, denom as int),
        a <= b ==> a <= r <= b,
        b <= a ==> b <= r <= a,
        -COORD_LIMIT <= r <= COORD_LIMIT,
{
    proof {
        lemma_lerp_bounds(a as int, b as int, t as int, denom as int);
    }
    if a <= b {
        let diff: i64 = b - a;
        proof {
            assert(0 <= (diff as int) * (t as int) <= 2 * (COORD_LIMIT as int) * (
            FIXED_ONE as int)) by (nonlinear_arith)
                requires
                    0 <= diff as int <= 2 * (COORD_LIMIT as int),
                    0 <= t as int <= FIXED_ONE as int,
            ;
        }
        let step: i64 = (diff * t) / denom;
        a + step
    } else {
        let diff: i64 = a - b;
        proof {
            assert(0 <= (diff as int) * (t as int) <= 2 * (COORD_LIMIT as int) * (
            FIXED_ONE as int)) by (nonlinear_arith)
                requires
                    0 <= diff as int <= 2 * (COORD_LIMIT as int),
                    0 <= t as int <= FIXED_ONE as int,
            ;
        }
        let step: i64 = (diff * t) / denom;
        a - step
    }
}

pub open spec fn lerp_point_spec(a: Point, b: Point, t: int, denom: int) -> Point {
    Point {
        x: lerp_spec(a.x as int, b.x as int, t, denom) as i64,
        y: lerp_spec(a.y as int, b.y as int, t, denom) as i64,
    }
}

/// Interpolates componentwise between two points.
pub fn lerp_point(a: Point, b: Point, t: i64, denom: i64) -> (r: Point)
    requires
        in_bounds(a),
        in_bounds(b),
        0 <= t <= denom,
        0 < denom <= FIXED_ONE,
    ensures
        r == lerp_point_spec(a, b, t as int, denom as int),
        in_bounds(r),
        a.x <= b.x ==> a.x <= r.x <= b.x,
        b.x <= a.x ==> b.x <= r.x <= a.x,
        a.y <= b.y ==> a.y <= r.y <= b.y,
        b.y <= a.y ==> b.y <= r.y <= a.y,
{
    Point { x: lerp(a.x, b.x, t, denom), y: lerp(a.y, b.y, t, denom) }
}

/// One cell of the perspective grid: four vertices in a consistent winding
/// order (bottom-left, top-left, top-right, bottom-right).
#[derive(Clone, Copy, PartialEq, Eq, Structural, Debug)]
pub struct Quad {
    pub bl: Point,
    pub tl: Point,
    pub tr: Point,
    pub br: Point,
}

impl Quad {
    pub open spec fn polygon_spec(self) -> Seq<Point> {
        seq![self.bl, self.tl, self.tr, self.br]
    }

    pub open spec fn all_in_bounds(self) -> bool {
        in_bounds(self.bl) && in_bounds(self.tl) && in_bounds(self.tr) && in_bounds(self.br)
    }

    /// The quad as a closed polygon, in winding order.
    pub fn polygon(&self) -> (r: Vec<Point>)
        ensures
            r@ == self.polygon_spec(),
    {
        let mut v: Vec<Point> = Vec::new();
        v.push(self.bl);
        v.push(self.tl);
        v.push(self.tr);
        v.push(self.br);
        proof {
            assert(v@ =~= self.polygon_spec());
        }
        v
    }
}

/// Axis-aligned box covering a polygon, padded by a non-negative margin.
#[derive(Clone, Copy, PartialEq, Eq, Structural, Debug)]
pub struct BoundingBox {
    pub min_x: i64,
    pub min_y: i64,
    pub max_x: i64,
    pub max_y: i64,
}

impl BoundingBox {
    pub open spec fn contains(self, p: Point) -> bool {
        &&& self.min_x <= p.x <= self.max_x
        &&& self.min_y <= p.y <= self.max_y
    }

    pub open spec fn width_spec(self) -> int {
        self.max_x - self.min_x
    }

    pub open spec fn height_spec(self) -> int {
        self.max_y - self.min_y
    }
}

/// The bounding box of a non-empty set of points, grown by `margin` on every
/// side: the tightest axis-aligned box around the points, then padded.
pub fn bounding_box(points: &Vec<Point>, margin: i64) -> (r: BoundingBox)
    requires
        points@.len() >= 1,
        0 <= margin <= COORD_LIMIT,
        forall|i: int| 0 <= i < points@.len() ==> in_bounds(#[trigger] points@[i]),
    ensures
        forall|i: int| 0 <= i < points@.len() ==> r.contains(#[trigger] points@[i]),
        forall|i: int|
            0 <= i < points@.len() ==> r.min_x + margin <= #[trigger] points@[i].x && points@[i].x
                + margin <= r.max_x,
        forall|i: int|
            0 <= i < points@.len() ==> r.min_y + margin <= #[trigger] points@[i].y && points@[i].y
                + margin <= r.max_y,
        exists|i: int| 0 <= i < points@.len() && r.min_x == #[trigger] points@[i].x - margin,
        exists|i: int| 0 <= i < points@.len() && r.max_x == #[trigger] points@[i].x + margin,
        exists|i: int| 0 <= i < points@.len() && r.min_y == #[trigger] points@[i].y - margin,
        exists|i: int| 0 <= i < points@.len() && r.max_y == #[trigger] points@[i].y + margin,
        r.width_spec() >= 2 * margin,
        r.height_spec() >= 2 * margin,
        -2 * COORD_LIMIT <= r.min_x <= r.max_x <= 2 * COORD_LIMIT,
        -2 * COORD_LIMIT <= r.min_y <= r.max_y <= 2 * COORD_LIMIT,
{
    let first = points[0];
    let mut min_x: i64 = first.x;
    let mut max_x: i64 = first.x;
    let mut min_y: i64 = first.y;
    let mut max_y: i64 = first.y;
    let n = points.len();
    let mut k: usize = 1;
    while k < n
        invariant
            1 <= k <= n,
            n == points@.len(),
            forall|i: int| 0 <= i < points@.len() ==> in_bounds(#[trigger] points@[i]),
            forall|i: int|
                0 <= i < k ==> min_x <= #[trigger] points@[i].x && points@[i].x <= max_x,
            forall|i: int|
                0 <= i < k ==> min_y <= #[trigger] points@[i].y && points@[i].y <= max_y,
            exists|i: int| 0 <= i < k && min_x == #[trigger] points@[i].x,
            exists|i: int| 0 <= i < k && max_x == #[trigger] points@[i].x,
            exists|i: int| 0 <= i < k && min_y == #[trigger] points@[i].y,
            exists|i: int| 0 <= i < k && max_y == #[trigger] points@[i].y,
            -COORD_LIMIT <= min_x <= max_x <= COORD_LIMIT,
            -COORD_LIMIT <= min_y <= max_y <= COORD_LIMIT,
        decreases n - k,
    {
        let p = points[k];
        if p.x < min_x {
            min_x = p.x;
        }
        if p.x > max_x {
            max_x = p.x;
        }
        if p.y < min_y {
            min_y = p.y;
        }
        if p.y > max_y {
            max_y = p.y;
        }
        k = k + 1;
    }
    BoundingBox {
        min_x: min_x - margin,
        min_y: min_y - margin,
        max_x: max_x + margin,
        max_y: max_y + margin,
    }
}

} // verus!
