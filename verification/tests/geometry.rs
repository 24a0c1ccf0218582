use perspective_grid::geom::{bounding_box, lerp, pt, Quad};
use perspective_grid::grid::{single_fan_grid, two_fan_grid, FanAnchors};
use perspective_grid::noise::noise_value;
use perspective_grid::render::quad_bbox;
use perspective_grid::smooth::chaikin;
use perspective_grid::RenderError;

fn fan(w: i64, h: i64) -> FanAnchors {
    FanAnchors {
        left_top: pt(0, 0),
        left_bottom: pt(0, h),
        middle_top: pt(w / 2, 0),
        middle_bottom: pt(w / 2, h),
        right_top: pt(w, 0),
        right_bottom: pt(w, h),
    }
}

#[test]
fn lerp_midpoint_and_endpoints() {
    assert_eq!(lerp(0, 100, 5000, 10000), 50);
    assert_eq!(lerp(0, 100, 0, 10000), 0);
    assert_eq!(lerp(0, 100, 10000, 10000), 100);
    assert_eq!(lerp(100, 0, 2500, 10000), 75);
    assert_eq!(lerp(-100, 100, 5000, 10000), 0);
}

#[test]
fn grid_refuses_short_stops() {
    let res = two_fan_grid(fan(100, 100), &vec![0], &vec![0, 10000], &vec![0, 10000]);
    assert!(matches!(res, Err(RenderError::InvalidStops)));
}

#[test]
fn grid_refuses_unsorted_stops() {
    let res = two_fan_grid(
        fan(100, 100),
        &vec![0, 10000],
        &vec![0, 9000, 5000, 10000],
        &vec![0, 10000],
    );
    assert!(matches!(res, Err(RenderError::InvalidStops)));
}

#[test]
fn grid_refuses_out_of_range_stops() {
    let res = two_fan_grid(fan(100, 100), &vec![0, 10000], &vec![0, 10001], &vec![0, 10000]);
    assert!(matches!(res, Err(RenderError::InvalidStops)));
}

#[test]
fn grid_size_formula() {
    // ten vertical stops, eight left stops, seven right stops:
    // (10-1) * ((8-1) + (7-1)) quads in all.
    let vert: Vec<i64> = (0..10).map(|i| i * 1000).collect();
    let left: Vec<i64> = (0..8).map(|i| i * 1000).collect();
    let right: Vec<i64> = (0..7).map(|i| i * 1000).collect();
    let g = two_fan_grid(fan(10000, 8000), &vert, &left, &right).unwrap();
    assert_eq!(g.quads().len(), 9 * (7 + 6));
}

#[test]
fn single_fan_grid_size_formula() {
    let ts: Vec<i64> = (0..10).map(|i| i * 1000).collect();
    let us: Vec<i64> = (0..8).map(|i| i * 1000).collect();
    let vs: Vec<i64> = (0..8).map(|i| i * 1000).collect();
    let g = single_fan_grid(pt(0, 4000), pt(10000, 4000), pt(5000, 0), pt(5000, 8000), &ts, &us, &vs)
        .unwrap();
    // (10-1) * ((8-1) + (8-1)): 63 left-side quads plus 63 right-side quads.
    assert_eq!(g.quads().len(), 63 + 63);
}

#[test]
fn grid_corners_match_anchors() {
    // A 2x2 sheet: the four computed vertices are the fan edge points.
    let g = two_fan_grid(
        FanAnchors {
            left_top: pt(0, 10),
            left_bottom: pt(0, 90),
            middle_top: pt(50, 0),
            middle_bottom: pt(50, 100),
            right_top: pt(100, 10),
            right_bottom: pt(100, 90),
        },
        &vec![0, 10000],
        &vec![0, 10000],
        &vec![0, 10000],
    )
    .unwrap();
    let quads = g.quads();
    assert_eq!(quads.len(), 2);
    // Left cell: from the left edge to the middle column.
    assert_eq!(quads[0].tl, pt(0, 10));
    assert_eq!(quads[0].bl, pt(0, 90));
    assert_eq!(quads[0].tr, pt(50, 0));
    assert_eq!(quads[0].br, pt(50, 100));
    // Right cell: from the middle column out to the right edge.
    assert_eq!(quads[1].tl, pt(50, 0));
    assert_eq!(quads[1].bl, pt(50, 100));
    assert_eq!(quads[1].tr, pt(100, 10));
    assert_eq!(quads[1].br, pt(100, 90));
}

#[test]
fn warp_identity_with_zero_factor() {
    let vert: Vec<i64> = vec![0, 3000, 10000];
    let left: Vec<i64> = vec![0, 5000, 10000];
    let right: Vec<i64> = vec![0, 2500, 10000];
    let g = two_fan_grid(fan(2000, 1500), &vert, &left, &right).unwrap();
    for (scale, seed) in [(0i64, 0u64), (100, 7), (10000, 717), (5000, u64::MAX)] {
        let w = g.warped(scale, 0, seed);
        assert_eq!(w.quads().len(), g.quads().len());
        for (a, b) in g.quads().iter().zip(w.quads().iter()) {
            assert_eq!(a, b);
        }
    }
}

#[test]
fn warp_moves_vertices_at_most_factor() {
    let vert: Vec<i64> = vec![0, 10000];
    let left: Vec<i64> = vec![0, 10000];
    let right: Vec<i64> = vec![0, 10000];
    let g = two_fan_grid(fan(2000, 1500), &vert, &left, &right).unwrap();
    let w = g.warped(5000, 40, 717);
    let mut moved = false;
    for (a, b) in g.quads().iter().zip(w.quads().iter()) {
        for (p, q) in [(a.bl, b.bl), (a.tl, b.tl), (a.tr, b.tr), (a.br, b.br)] {
            assert!((p.x - q.x).abs() <= 40);
            assert!((p.y - q.y).abs() <= 40);
            if p != q {
                moved = true;
            }
        }
    }
    assert!(moved);
}

#[test]
fn chaikin_vertex_counts() {
    let square = vec![pt(0, 0), pt(0, 1000), pt(1000, 1000), pt(1000, 0)];
    assert_eq!(chaikin(&square, 0).len(), 4);
    assert_eq!(chaikin(&square, 0), square);
    assert_eq!(chaikin(&square, 1).len(), 8);
    assert_eq!(chaikin(&square, 3).len(), 32);
    assert_eq!(chaikin(&square, 5).len(), 4 * 32);
}

#[test]
fn chaikin_corner_cut_positions() {
    let square = vec![pt(0, 0), pt(0, 1000), pt(1000, 1000), pt(1000, 0)];
    let once = chaikin(&square, 1);
    // First edge (0,0) -> (0,1000): points a quarter and three quarters along.
    assert_eq!(once[0], pt(0, 250));
    assert_eq!(once[1], pt(0, 750));
    // Last edge (1000,0) -> (0,0) wraps around to the first vertex.
    assert_eq!(once[6], pt(750, 0));
    assert_eq!(once[7], pt(250, 0));
}

#[test]
fn bounding_box_contains_all_points() {
    let points = vec![pt(10, 10), pt(-100, 90), pt(100, -80), pt(80, 100)];
    let b = bounding_box(&points, 0);
    assert_eq!((b.min_x, b.min_y, b.max_x, b.max_y), (-100, -80, 100, 100));
    for p in &points {
        assert!(b.min_x <= p.x && p.x <= b.max_x);
        assert!(b.min_y <= p.y && p.y <= b.max_y);
    }
}

#[test]
fn quad_bbox_contains_vertices_with_margin() {
    let q = Quad { bl: pt(0, 100), tl: pt(10, 0), tr: pt(90, 5), br: pt(100, 95) };
    let b = quad_bbox(q, 100);
    assert_eq!((b.min_x, b.min_y, b.max_x, b.max_y), (-100, -100, 200, 200));
    for p in [q.bl, q.tl, q.tr, q.br] {
        assert!(b.min_x <= p.x && p.x <= b.max_x);
        assert!(b.min_y <= p.y && p.y <= b.max_y);
    }
}

#[test]
fn noise_is_deterministic_and_bounded() {
    for (x, y) in [(0i64, 0i64), (123, 456), (99999, 1), (5000, 5000)] {
        let a = noise_value(7, x, y, 100);
        let b = noise_value(7, x, y, 100);
        assert_eq!(a, b);
        assert!(-1024 <= a && a <= 1024);
    }
    // Different seeds decorrelate the field somewhere.
    let mut differs = false;
    for x in 0..50i64 {
        if noise_value(1, x * 40000, 12345, 10000) != noise_value(2, x * 40000, 12345, 10000) {
            differs = true;
        }
    }
    assert!(differs);
}

#[test]
fn adjacent_warped_quads_share_edges() {
    let vert: Vec<i64> = vec![0, 4000, 10000];
    let left: Vec<i64> = vec![0, 3000, 10000];
    let right: Vec<i64> = vec![0, 6000, 10000];
    let g = two_fan_grid(fan(2000, 1500), &vert, &left, &right).unwrap();
    let w = g.warped(5000, 40, 99);
    let quads = w.quads();
    let cols = 4; // (3-1) + (3-1) cells per row
    for row in 0..2usize {
        for col in 0..cols - 1 {
            let a = &quads[row * cols + col];
            let b = &quads[row * cols + col + 1];
            assert_eq!(a.tr, b.tl);
            assert_eq!(a.br, b.bl);
        }
    }
    for col in 0..cols {
        let a = &quads[col];
        let b = &quads[cols + col];
        assert_eq!(a.bl, b.tl);
        assert_eq!(a.br, b.tr);
    }
}
