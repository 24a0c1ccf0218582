use vstd::prelude::*;

use crate::geom::{
    in_bounds, lerp_point, lerp_point_spec, Point, Quad, COORD_LIMIT, FIXED_ONE,
};
use crate::RenderError;

verus! {

/// A parametric stop sequence is usable when it has at least two entries,
/// is sorted (non-decreasing), and stays inside the unit interval.
pub open spec fn stops_wf(s: Seq<i64>) -> bool {
    &&& s.len() >= 2
    &&& forall|i: int| 0 <= i < s.len() ==> 0 <= #[trigger] s[i] <= FIXED_ONE
    &&& forall|i: int| 0 <= i < s.len() - 1 ==> #[trigger] s[i] <= s[i + 1]
}

/// Checks a stop sequence against `stops_wf`.
pub fn check_stops(s: &Vec<i64>) -> (ok: bool)
    ensures
        ok == stops_wf(s@),
{
    if s.len() < 2 {
        return false;
    }
    let n = s.len();
    let mut k: usize = 0;
    while k < n
        invariant
            0 <= k <= n,
            n == s@.len(),
            forall|i: int| 0 <= i < k ==> 0 <= #[trigger] s@[i] <= FIXED_ONE,
            forall|i: int| 0 <= i < k && i < n - 1 ==> #[trigger] s@[i] <= s@[i + 1],
        decreases n - k,
    {
        let v = s[k];
        if v < 0 || v > FIXED_ONE {
            return false;
        }
        if k + 1 < n && s[k + 1] < v {
            return false;
        }
        k = k + 1;
    }
    true
}

/// The six anchor points of a two-sided perspective fan: a left edge, a
/// middle column, and a right edge, each given by a top and a bottom point.
#[derive(Clone, Copy, PartialEq, Eq, Structural, Debug)]
pub struct FanAnchors {
    pub left_top: Point,
    pub left_bottom: Point,
    pub middle_top: Point,
    pub middle_bottom: Point,
    pub right_top: Point,
    pub right_bottom: Point,
}

impl FanAnchors {
    pub open spec fn wf(self) -> bool {
        &&& in_bounds(self.left_top)
        &&& in_bounds(self.left_bottom)
        &&& in_bounds(self.middle_top)
        &&& in_bounds(self.middle_bottom)
        &&& in_bounds(self.right_top)
        &&& in_bounds(self.right_bottom)
    }

    /// Every anchor coordinate lies in `[lo, hi]`.
    pub open spec fn in_box(self, lo: int, hi: int) -> bool {
        &&& lo <= self.left_top.x <= hi && lo <= self.left_top.y <= hi
        &&& lo <= self.left_bottom.x <= hi && lo <= self.left_bottom.y <= hi
        &&& lo <= self.middle_top.x <= hi && lo <= self.middle_top.y <= hi
        &&& lo <= self.middle_bottom.x <= hi && lo <= self.middle_bottom.y <= hi
        &&& lo <= self.right_top.x <= hi && lo <= self.right_top.y <= hi
        &&& lo <= self.right_bottom.x <= hi && lo <= self.right_bottom.y <= hi
    }
}

/// A point coordinate lies in `[lo, hi]`.
pub open spec fn point_in_box(p: Point, lo: int, hi: int) -> bool {
    lo <= p.x <= hi && lo <= p.y <= hi
}

/// The grid vertex for fan row `r` (a vertical stop) and column `c`. The row
/// interpolates three edge points down the left edge, the middle column and
/// the right edge; columns to the left of the middle fan from the left edge
/// point toward the middle point at the left stops, those to its right fan
/// from the right edge point toward the middle at the right stops, walked
/// from the outside in.
pub open spec fn fan_vertex_spec(
    a: FanAnchors,
    vert: Seq<i64>,
    left: Seq<i64>,
    right: Seq<i64>,
    r: int,
    c: int,
) -> Point {
    let lv = lerp_point_spec(a.left_top, a.left_bottom, vert[r] as int, FIXED_ONE as int);
    let mv = lerp_point_spec(a.middle_top, a.middle_bottom, vert[r] as int, FIXED_ONE as int);
    let rv = lerp_point_spec(a.right_top, a.right_bottom, vert[r] as int, FIXED_ONE as int);
    if c < left.len() {
        lerp_point_spec(lv, mv, left[c] as int, FIXED_ONE as int)
    } else {
        lerp_point_spec(rv, mv, right[right.len() - 2 - (c - left.len())] as int, FIXED_ONE as int)
    }
}

/// Vertex of a row-major vertex sheet with `cols` columns.
pub open spec fn flat_at(s: Seq<Point>, cols: int, r: int, c: int) -> Point {
    s[r * cols + c]
}

/// An ordered grid of quadrilaterals: a row-major sheet of vertices, from
/// which the quads are cut. Shared vertices are stored once, so any later
/// displacement moves both adjacent quads alike.
pub struct Grid {
    pub rows: usize,
    pub cols: usize,
    pub verts: Vec<Point>,
}

impl Grid {
    pub open spec fn wf(self) -> bool {
        &&& self.rows >= 2
        &&& self.cols >= 2
        &&& self.verts@.len() == self.rows * self.cols
        &&& forall|i: int| 0 <= i < self.verts@.len() ==> in_bounds(#[trigger] self.verts@[i])
    }

    pub open spec fn vert_at_spec(self, r: int, c: int) -> Point {
        flat_at(self.verts@, self.cols as int, r, c)
    }

    /// Quads in grid traversal order: row-major over cells.
    pub open spec fn quad_count(self) -> int {
        (self.rows - 1) * (self.cols - 1)
    }

    /// The k-th quad, counted row-major over cells.
    pub open spec fn quad_spec(self, k: int) -> Quad {
        let r = k / (self.cols - 1);
        let c = k % (self.cols - 1);
        Quad {
            bl: self.vert_at_spec(r + 1, c),
            tl: self.vert_at_spec(r, c),
            tr: self.vert_at_spec(r, c + 1),
            br: self.vert_at_spec(r + 1, c + 1),
        }
    }

    /// Reads the vertex at row `r`, column `c`.
    pub fn vert_at(&self, r: usize, c: usize) -> (p: Point)
        requires
            self.wf(),
            r < self.rows,
            c < self.cols,
        ensures
            p == self.vert_at_spec(r as int, c as int),
            in_bounds(p),
    {
        let n = self.verts.len();
        proof {
            lemma_flat_index_bounds(r as int, c as int, self.rows as int, self.cols as int);
            assert((r as int) * (self.cols as int) + (c as int) < n as int);
        }
        let idx: usize = r * self.cols + c;
        self.verts[idx]
    }

    /// The quads of the grid, in traversal order.
    pub fn quads(&self) -> (r: Vec<Quad>)
        requires
            self.wf(),
        ensures
            r@.len() == self.quad_count(),
            forall|k: int| 0 <= k < r@.len() ==> #[trigger] r@[k] == self.quad_spec(k),
            forall|k: int| 0 <= k < r@.len() ==> (#[trigger] r@[k]).all_in_bounds(),
    {
        let qrows = self.rows - 1;
        let qcols = self.cols - 1;
        let mut out: Vec<Quad> = Vec::new();
        let mut r: usize = 0;
        while r < qrows
            invariant
                self.wf(),
                qrows == self.rows - 1,
                qcols == self.cols - 1,
                r <= qrows,
                out@.len() == r * qcols,
                forall|k: int| 0 <= k < out@.len() ==> #[trigger] out@[k] == self.quad_spec(k),
                forall|k: int| 0 <= k < out@.len() ==> (#[trigger] out@[k]).all_in_bounds(),
            decreases qrows - r,
        {
            let mut c: usize = 0;
            while c < qcols
                invariant
                    self.wf(),
                    qrows == self.rows - 1,
                    qcols == self.cols - 1,
                    r < qrows,
                    c <= qcols,
                    out@.len() == r * qcols + c,
                    forall|k: int| 0 <= k < out@.len() ==> #[trigger] out@[k] == self.quad_spec(k),
                    forall|k: int| 0 <= k < out@.len() ==> (#[trigger] out@[k]).all_in_bounds(),
                decreases qcols - c,
            {
                let q = Quad {
                    bl: self.vert_at(r + 1, c),
                    tl: self.vert_at(r, c),
                    tr: self.vert_at(r, c + 1),
                    br: self.vert_at(r + 1, c + 1),
                };
                proof {
                    let k = out@.len() as int;
                    lemma_flat_index_bounds(r as int, c as int, qrows as int, qcols as int);
                    vstd::arithmetic::div_mod::lemma_fundamental_div_mod_converse(
                        k,
                        qcols as int,
                        r as int,
                        c as int,
                    );
                    assert(k / (qcols as int) == r as int);
                    assert(k % (qcols as int) == c as int);
                }
                out.push(q);
                c = c + 1;
            }
            r = r + 1;
            proof {
                assert((r - 1) * (qcols as int) + qcols as int == r * (qcols as int))
                    by (nonlinear_arith);
            }
        }
        out
    }
}

/// Row-major flat indices stay inside the sheet.
proof fn lemma_flat_index_bounds(r: int, c: int, rows: int, cols: int)
    requires
        0 <= r < rows,
        0 <= c < cols,
    ensures
        0 <= r * cols + c < rows * cols,
        r * cols + c == c + r * cols,
{
    assert(0 <= r * cols + c < rows * cols) by (nonlinear_arith)
        requires
            0 <= r < rows,
            0 <= c < cols,
    ;
}

/// An index strictly earlier in row-major order has a strictly smaller flat
/// index.
proof fn lemma_flat_index_earlier(r2: int, c2: int, r: int, c: int, cols: int)
    requires
        0 <= c2 < cols,
        0 <= r2,
        0 <= c,
        r2 < r || (r2 == r && c2 < c),
    ensures
        r2 * cols + c2 < r * cols + c,
{
    assert(r2 * cols + c2 < r * cols + c) by (nonlinear_arith)
        requires
            0 <= c2 < cols,
            0 <= r2,
            0 <= c,
            r2 < r || (r2 == r && c2 < c),
    ;
}

/// Builds the two-sided fan grid from six anchors and three stop sequences.
/// Refuses the configuration if any stop sequence has fewer than two entries,
/// is unsorted, or leaves the unit interval.
pub fn two_fan_grid(
    a: FanAnchors,
    vert: &Vec<i64>,
    left: &Vec<i64>,
    right: &Vec<i64>,
) -> (res: Result<Grid, RenderError>)
    requires
        a.wf(),
        left@.len() + right@.len() <= usize::MAX,
    ensures
        res is Ok <==> stops_wf(vert@) && stops_wf(left@) && stops_wf(right@),
        res is Err ==> res == Err::<Grid, RenderError>(RenderError::InvalidStops),
        res matches Ok(g) ==> {
            &&& g.wf()
            &&& g.rows == vert@.len()
            &&& g.cols == left@.len() + right@.len() - 1
            &&& g.quad_count() == (vert@.len() - 1) * ((left@.len() - 1) + (right@.len() - 1))
            &&& forall|r: int, c: int|
                0 <= r < g.rows && 0 <= c < g.cols ==> #[trigger] g.vert_at_spec(r, c)
                    == fan_vertex_spec(a, vert@, left@, right@, r, c)
            &&& forall|lo: int, hi: int|
                #[trigger] a.in_box(lo, hi) ==> forall|i: int|
                    0 <= i < g.verts@.len() ==> point_in_box(#[trigger] g.verts@[i], lo, hi)
        },
{
    if !(check_stops(vert) && check_stops(left) && check_stops(right)) {
        return Err(RenderError::InvalidStops);
    }
    let rows = vert.len();
    let lcount = left.len();
    let rcount = right.len();
    let cols = lcount + rcount - 1;
    let mut verts: Vec<Point> = Vec::new();
    let ghost vs = vert@;
    let ghost ls = left@;
    let ghost rs = right@;
    let mut r: usize = 0;
    while r < rows
        invariant
            a.wf(),
            stops_wf(vs),
            stops_wf(ls),
            stops_wf(rs),
            vs == vert@,
            ls == left@,
            rs == right@,
            rows == vs.len(),
            lcount == ls.len(),
            rcount == rs.len(),
            cols == lcount + rcount - 1,
            r <= rows,
            verts@.len() == r * cols,
            forall|r2: int, c2: int|
                0 <= r2 < r && 0 <= c2 < cols ==> flat_at(verts@, cols as int, r2, c2)
                    == #[trigger] fan_vertex_spec(a, vs, ls, rs, r2, c2),
            forall|i: int| 0 <= i < verts@.len() ==> in_bounds(#[trigger] verts@[i]),
            forall|lo: int, hi: int|
                #[trigger] a.in_box(lo, hi) ==> forall|i: int|
                    0 <= i < verts@.len() ==> point_in_box(#[trigger] verts@[i], lo, hi),
        decreases rows - r,
    {
        let vstop = vert[r];
        let lv = lerp_point(a.left_top, a.left_bottom, vstop, FIXED_ONE);
        let mv = lerp_point(a.middle_top, a.middle_bottom, vstop, FIXED_ONE);
        let rv = lerp_point(a.right_top, a.right_bottom, vstop, FIXED_ONE);
        let mut c: usize = 0;
        while c < cols
            invariant
                a.wf(),
                stops_wf(vs),
                stops_wf(ls),
                stops_wf(rs),
                vs == vert@,
                ls == left@,
                rs == right@,
                rows == vs.len(),
                lcount == ls.len(),
                rcount == rs.len(),
                cols == lcount + rcount - 1,
                r < rows,
                c <= cols,
                0 <= vstop <= FIXED_ONE,
                vstop == vs[r as int],
                lv == lerp_point_spec(a.left_top, a.left_bottom, vstop as int, FIXED_ONE as int),
                mv == lerp_point_spec(
                    a.middle_top,
                    a.middle_bottom,
                    vstop as int,
                    FIXED_ONE as int,
                ),
                rv == lerp_point_spec(a.right_top, a.right_bottom, vstop as int, FIXED_ONE as int),
                in_bounds(lv),
                in_bounds(mv),
                in_bounds(rv),
                forall|lo: int, hi: int|
                    #[trigger] a.in_box(lo, hi) ==> point_in_box(lv, lo, hi) && point_in_box(
                        mv,
                        lo,
                        hi,
                    ) && point_in_box(rv, lo, hi),
                verts@.len() == r * cols + c,
                forall|r2: int, c2: int|
                    0 <= r2 < r && 0 <= c2 < cols ==> flat_at(verts@, cols as int, r2, c2)
                        == #[trigger] fan_vertex_spec(a, vs, ls, rs, r2, c2),
                forall|c2: int|
                    0 <= c2 < c ==> flat_at(verts@, cols as int, r as int, c2)
                        == #[trigger] fan_vertex_spec(a, vs, ls, rs, r as int, c2),
                forall|i: int| 0 <= i < verts@.len() ==> in_bounds(#[trigger] verts@[i]),
                forall|lo: int, hi: int|
                    #[trigger] a.in_box(lo, hi) ==> forall|i: int|
                        0 <= i < verts@.len() ==> point_in_box(#[trigger] verts@[i], lo, hi),
            decreases cols - c,
        {
            let p: Point = if c < lcount {
                lerp_point(lv, mv, left[c], FIXED_ONE)
            } else {
                let j = rcount - 2 - (c - lcount);
                lerp_point(rv, mv, right[j], FIXED_ONE)
            };
            proof {
                assert(p == fan_vertex_spec(a, vs, ls, rs, r as int, c as int));
                assert forall|r2: int, c2: int|
                    0 <= r2 < r && 0 <= c2 < cols implies flat_at(
                    verts@.push(p),
                    cols as int,
                    r2,
                    c2,
                ) == #[trigger] fan_vertex_spec(a, vs, ls, rs, r2, c2) by {
                    lemma_flat_index_earlier(r2, c2, r as int, c as int, cols as int);
                    lemma_flat_index_bounds(r2, c2, r as int + 1, cols as int);
                    assert(flat_at(verts@.push(p), cols as int, r2, c2) == flat_at(
                        verts@,
                        cols as int,
                        r2,
                        c2,
                    ));
                }
                assert forall|c2: int| 0 <= c2 < c + 1 implies flat_at(
                    verts@.push(p),
                    cols as int,
                    r as int,
                    c2,
                ) == #[trigger] fan_vertex_spec(a, vs, ls, rs, r as int, c2) by {
                    if c2 < c {
                        lemma_flat_index_earlier(r as int, c2, r as int, c as int, cols as int);
                        lemma_flat_index_bounds(r as int, c2, r as int + 1, cols as int);
                    } else {
                        assert((r as int) * (cols as int) + c2 == verts@.len());
                    }
                }
            }
            verts.push(p);
            c = c + 1;
        }
        r = r + 1;
        proof {
            assert((r - 1) * (cols as int) + cols as int == r * (cols as int))
                by (nonlinear_arith);
        }
    }
    let g = Grid { rows, cols, verts };
    proof {
        assert(g.quad_count() == (vs.len() - 1) * ((ls.len() - 1) + (rs.len() - 1)));
        assert(g.rows * g.cols == g.verts@.len());
        assert(g.wf());
    }
    Ok(g)
}

/// Builds the single-vanishing-point fan grid: four anchors, where the left
/// and right edges collapse to single convergence points and the middle
/// column runs from `top` to `bottom`.
pub fn single_fan_grid(
    left: Point,
    right: Point,
    top: Point,
    bottom: Point,
    ts: &Vec<i64>,
    us: &Vec<i64>,
    vs: &Vec<i64>,
) -> (res: Result<Grid, RenderError>)
    requires
        in_bounds(left),
        in_bounds(right),
        in_bounds(top),
        in_bounds(bottom),
        us@.len() + vs@.len() <= usize::MAX,
    ensures
        res is Ok <==> stops_wf(ts@) && stops_wf(us@) && stops_wf(vs@),
        res is Err ==> res == Err::<Grid, RenderError>(RenderError::InvalidStops),
        res matches Ok(g) ==> {
            &&& g.wf()
            &&& g.rows == ts@.len()
            &&& g.cols == us@.len() + vs@.len() - 1
            &&& g.quad_count() == (ts@.len() - 1) * ((us@.len() - 1) + (vs@.len() - 1))
            &&& forall|r: int, c: int|
                0 <= r < g.rows && 0 <= c < g.cols ==> #[trigger] g.vert_at_spec(r, c)
                    == fan_vertex_spec(
                    single_fan_anchors(left, right, top, bottom),
                    ts@,
                    us@,
                    vs@,
                    r,
                    c,
                )
            &&& forall|lo: int, hi: int|
                #[trigger] single_fan_anchors(left, right, top, bottom).in_box(lo, hi)
                    ==> forall|i: int|
                    0 <= i < g.verts@.len() ==> point_in_box(#[trigger] g.verts@[i], lo, hi)
        },
{
    let a = FanAnchors {
        left_top: left,
        left_bottom: left,
        middle_top: top,
        middle_bottom: bottom,
        right_top: right,
        right_bottom: right,
    };
    two_fan_grid(a, ts, us, vs)
}

/// The anchors the single-fan builder expands to.
pub open spec fn single_fan_anchors(left: Point, right: Point, top: Point, bottom: Point) -> FanAnchors {
    FanAnchors {
        left_top: left,
        left_bottom: left,
        middle_top: top,
        middle_bottom: bottom,
        right_top: right,
        right_bottom: right,
    }
}

/// Law: adjacent quads share their edge vertices exactly. Two quads side by
/// side in one row read the same sheet entries for their common edge, and two
/// quads stacked in one column likewise; since warping displaces sheet
/// entries (not per-quad copies), shared vertices receive identical
/// displacement and the grid cannot tear at the seams.
pub proof fn lemma_adjacent_quads_share_edge(g: Grid, k: int)
    requires
        g.wf(),
        0 <= k,
        k + 1 < g.quad_count(),
        (k + 1) % (g.cols - 1) != 0,
    ensures
        g.quad_spec(k).tr == g.quad_spec(k + 1).tl,
        g.quad_spec(k).br == g.quad_spec(k + 1).bl,
{
    let qi = g.cols as int - 1;
    vstd::arithmetic::div_mod::lemma_fundamental_div_mod(k, qi);
    let r = k / qi;
    let c = k % qi;
    assert(0 <= c < qi);
    assert(k == qi * r + c);
    if c + 1 == qi {
        assert(k + 1 == (r + 1) * qi) by (nonlinear_arith)
            requires
                k == qi * r + c,
                c + 1 == qi,
        ;
        vstd::arithmetic::div_mod::lemma_mod_multiples_basic(r + 1, qi);
        assert((k + 1) % qi == 0);
        assert(false);
    }
    assert(k + 1 == r * qi + (c + 1)) by (nonlinear_arith)
        requires
            k == qi * r + c,
    ;
    vstd::arithmetic::div_mod::lemma_fundamental_div_mod_converse(k + 1, qi, r, c + 1);
    assert((k + 1) / qi == r && (k + 1) % qi == c + 1);
}

/// Law: vertically adjacent quads share their horizontal edge vertices
/// exactly, for the same reason.
pub proof fn lemma_stacked_quads_share_edge(g: Grid, k: int)
    requires
        g.wf(),
        0 <= k,
        k + (g.cols - 1) < g.quad_count(),
    ensures
        g.quad_spec(k).bl == g.quad_spec(k + (g.cols - 1)).tl,
        g.quad_spec(k).br == g.quad_spec(k + (g.cols - 1)).tr,
{
    let qi = g.cols as int - 1;
    vstd::arithmetic::div_mod::lemma_fundamental_div_mod(k, qi);
    let r = k / qi;
    let c = k % qi;
    assert(0 <= c < qi);
    assert(k == qi * r + c);
    assert(k + qi == (r + 1) * qi + c) by (nonlinear_arith)
        requires
            k == qi * r + c,
    ;
    vstd::arithmetic::div_mod::lemma_fundamental_div_mod_converse(k + qi, qi, r + 1, c);
    assert((k + qi) / qi == r + 1 && (k + qi) % qi == c);
}

} // verus!
