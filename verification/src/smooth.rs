use vstd::prelude::*;

use crate::geom::{in_bounds, lerp_point, lerp_point_spec, Point, FIXED_ONE};

verus! {

/// Two to the `n`.
pub open spec fn pow2(n: nat) -> nat
    decreases n,
{
    if n == 0 {
        1
    } else {
        2 * pow2((n - 1) as nat)
    }
}

/// `pow2` grows with its argument.
pub proof fn lemma_pow2_monotonic(m: nat, n: nat)
    requires
        m <= n,
    ensures
        pow2(m) <= pow2(n),
    decreases n,
{
    if m < n {
        lemma_pow2_monotonic(m, (n - 1) as nat);
    }
}

/// One corner-cutting pass over a closed polygon: each edge is replaced by
/// the two points a quarter and three quarters of the way along it, so the
/// vertex count doubles.
pub open spec fn chaikin_once_spec(s: Seq<Point>) -> Seq<Point> {
    Seq::new(
        2 * s.len(),
        |i: int|
            {
                let e = i / 2;
                let a = s[e];
                let b = s[(e + 1) % (s.len() as int)];
                if i % 2 == 0 {
                    lerp_point_spec(a, b, (FIXED_ONE / 4) as int, FIXED_ONE as int)
                } else {
                    lerp_point_spec(a, b, (3 * (FIXED_ONE / 4)) as int, FIXED_ONE as int)
                }
            },
    )
}

/// `n` corner-cutting passes.
pub open spec fn chaikin_spec(s: Seq<Point>, n: nat) -> Seq<Point>
    decreases n,
{
    if n == 0 {
        s
    } else {
        chaikin_once_spec(chaikin_spec(s, (n - 1) as nat))
    }
}

fn chaikin_once(poly: &Vec<Point>) -> (r: Vec<Point>)
    requires
        poly@.len() >= 3,
        poly@.len() * 2 <= usize::MAX,
        forall|i: int| 0 <= i < poly@.len() ==> in_bounds(#[trigger] poly@[i]),
    ensures
        r@ == chaikin_once_spec(poly@),
        r@.len() == 2 * poly@.len(),
        forall|i: int| 0 <= i < r@.len() ==> in_bounds(#[trigger] r@[i]),
{
    let n = poly.len();
    let quarter = FIXED_ONE / 4;
    let three_quarter = 3 * (FIXED_ONE / 4);
    let mut out: Vec<Point> = Vec::new();
    let mut e: usize = 0;
    while e < n
        invariant
            n == poly@.len(),
            n >= 3,
            n * 2 <= usize::MAX,
            quarter == FIXED_ONE / 4,
            three_quarter == 3 * (FIXED_ONE / 4),
            forall|i: int| 0 <= i < poly@.len() ==> in_bounds(#[trigger] poly@[i]),
            e <= n,
            out@.len() == 2 * e,
            forall|i: int| 0 <= i < out@.len() ==> #[trigger] out@[i] == chaikin_once_spec(poly@)[i],
            forall|i: int| 0 <= i < out@.len() ==> in_bounds(#[trigger] out@[i]),
        decreases n - e,
    {
        let a = poly[e];
        let next = if e + 1 == n {
            0
        } else {
            e + 1
        };
        let b = poly[next];
        let p = lerp_point(a, b, quarter, FIXED_ONE);
        let q = lerp_point(a, b, three_quarter, FIXED_ONE);
        proof {
            let i = out@.len() as int;
            assert(i / 2 == e as int && i % 2 == 0) by (nonlinear_arith)
                requires
                    i == 2 * (e as int),
                    0 <= e as int,
            ;
            assert((i + 1) / 2 == e as int && (i + 1) % 2 == 1) by (nonlinear_arith)
                requires
                    i == 2 * (e as int),
                    0 <= e as int,
            ;
            if e + 1 == n {
                vstd::arithmetic::div_mod::lemma_mod_self_0(n as int);
            } else {
                vstd::arithmetic::div_mod::lemma_small_mod((e + 1) as nat, n as nat);
            }
            assert(next as int == (e as int + 1) % (poly@.len() as int));
        }
        out.push(p);
        out.push(q);
        e = e + 1;
    }
    proof {
        assert(out@ =~= chaikin_once_spec(poly@));
    }
    out
}

/// Corner-cutting subdivision of a closed polygon, repeated `n` times: each
/// pass replaces every edge's endpoints with points a quarter and three
/// quarters of the way along the edge, doubling the vertex count, so `n`
/// passes yield exactly `len * 2^n` vertices; zero passes return the polygon
/// unchanged.
pub fn chaikin(poly: &Vec<Point>, n: u32) -> (r: Vec<Point>)
    requires
        poly@.len() >= 3,
        poly@.len() * pow2(n as nat) <= usize::MAX,
        forall|i: int| 0 <= i < poly@.len() ==> in_bounds(#[trigger] poly@[i]),
    ensures
        r@ == chaikin_spec(poly@, n as nat),
        r@.len() == poly@.len() * pow2(n as nat),
        n == 0 ==> r@ == poly@,
        forall|i: int| 0 <= i < r@.len() ==> in_bounds(#[trigger] r@[i]),
{
    let mut cur: Vec<Point> = poly.clone();
    proof {
        assert(cur@ =~= poly@);
        assert(poly@.len() * pow2(0) == poly@.len()) by (nonlinear_arith)
            requires
                pow2(0) == 1,
        ;
    }
    let mut k: u32 = 0;
    while k < n
        invariant
            poly@.len() >= 3,
            poly@.len() * pow2(n as nat) <= usize::MAX,
            k <= n,
            cur@ == chaikin_spec(poly@, k as nat),
            cur@.len() == poly@.len() * pow2(k as nat),
            forall|i: int| 0 <= i < cur@.len() ==> in_bounds(#[trigger] cur@[i]),
        decreases n - k,
    {
        proof {
            lemma_pow2_monotonic(0, k as nat);
            lemma_pow2_monotonic((k + 1) as nat, n as nat);
            assert(poly@.len() * pow2((k + 1) as nat) <= poly@.len() * pow2(n as nat))
                by (nonlinear_arith)
                requires
                    pow2((k + 1) as nat) <= pow2(n as nat),
                    poly@.len() >= 0,
            ;
            assert(pow2((k + 1) as nat) == 2 * pow2(k as nat));
            assert(poly@.len() * (2 * pow2(k as nat)) == 2 * (poly@.len() * pow2(k as nat)))
                by (nonlinear_arith);
            assert(cur@.len() >= 3) by (nonlinear_arith)
                requires
                    cur@.len() == poly@.len() * pow2(k as nat),
                    poly@.len() >= 3,
                    pow2(k as nat) >= 1,
            ;
        }
        cur = chaikin_once(&cur);
        k = k + 1;
    }
    cur
}

} // verus!
