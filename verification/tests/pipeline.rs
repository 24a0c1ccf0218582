use rand::{Rng, SeedableRng};
use rand_pcg::Pcg64;

use perspective_grid::geom::pt;
use perspective_grid::grid::FanAnchors;
use perspective_grid::palette::{Palette, Rgba8};
use perspective_grid::pattern::PhotoSource;
use perspective_grid::render::{plan_render, FillSource, RenderConfig};
use perspective_grid::treatment::{resolve_treatment, Treatment};
use perspective_grid::RenderError;

fn corner_fan_config(seed: u64, override_index: usize) -> RenderConfig {
    let stops: Vec<i64> = vec![0, 5000, 10000];
    RenderConfig {
        anchors: FanAnchors {
            left_top: pt(0, 0),
            left_bottom: pt(0, 200),
            middle_top: pt(100, 0),
            middle_bottom: pt(100, 200),
            right_top: pt(200, 0),
            right_bottom: pt(200, 200),
        },
        vert_stops: stops.clone(),
        left_stops: stops.clone(),
        right_stops: stops,
        noise_scale: 100,
        noise_factor: 0,
        warp_seed: 0,
        seed,
        override_index,
        bbox_margin: 10,
        smoothing: 0,
    }
}

fn small_palette() -> Palette {
    Palette::new(vec![
        Rgba8 { r: 250, g: 10, b: 10, a: 255 },
        Rgba8 { r: 10, g: 250, b: 10, a: 255 },
        Rgba8 { r: 10, g: 10, b: 250, a: 255 },
    ])
    .unwrap()
}

fn small_photo() -> PhotoSource {
    PhotoSource::new(2, 2, vec![200; 16]).unwrap()
}

/// Emulates the render's stream consumption directly on rand's generator and
/// returns the expected treatment per quad.
fn expected_treatments(seed: u64, override_index: usize, quads: usize, ncolors: u64) -> Vec<Treatment> {
    let mut rng = Pcg64::seed_from_u64(seed);
    let mut out = Vec::new();
    for k in 0..quads {
        let _base: u64 = rng.gen_range(0..ncolors);
        let t = if k == override_index {
            Treatment::Photo
        } else {
            let d: u64 = rng.gen_range(0..100u64);
            resolve_treatment(d)
        };
        if matches!(
            t,
            Treatment::Wood
                | Treatment::Marble
                | Treatment::Ridge
                | Treatment::Stripe
                | Treatment::Sand
                | Treatment::Granite
        ) {
            let _c1: u64 = rng.gen_range(0..ncolors);
            let _c2: u64 = rng.gen_range(0..ncolors);
        }
        out.push(t);
    }
    out
}

#[test]
fn corner_fan_scenario() {
    // Anchors at the canvas corners forming a symmetric fan, stops
    // 0.0/0.5/1.0 on all three axes, no warp, seed 1, override index 0:
    // a fixed-size grid of (3-1) * ((3-1) + (3-1)) = 8 quads whose first quad
    // is photographic and whose other treatments are fully determined by the
    // seed-1 stream through the bucket table.
    let cfg = corner_fan_config(1, 0);
    let palette = small_palette();
    let photo = small_photo();
    let plans = plan_render(&cfg, &palette, &photo).unwrap();
    assert_eq!(plans.len(), 8);
    assert_eq!(plans[0].treatment, Treatment::Photo);
    let expected = expected_treatments(1, 0, 8, 3);
    for (k, plan) in plans.iter().enumerate() {
        assert_eq!(plan.index, k);
        assert_eq!(plan.treatment, expected[k], "quad {}", k);
    }
}

#[test]
fn override_quad_is_photographic_for_any_seed() {
    for seed in [0u64, 1, 2, 717, 99999] {
        let cfg = corner_fan_config(seed, 3);
        let plans = plan_render(&cfg, &small_palette(), &small_photo()).unwrap();
        assert_eq!(plans[3].treatment, Treatment::Photo);
    }
}

#[test]
fn renders_are_deterministic() {
    let cfg = corner_fan_config(717, 2);
    let palette = small_palette();
    let photo = small_photo();
    let a = plan_render(&cfg, &palette, &photo).unwrap();
    let b = plan_render(&cfg, &palette, &photo).unwrap();
    assert_eq!(a.len(), b.len());
    for (p, q) in a.iter().zip(b.iter()) {
        assert_eq!(p.treatment, q.treatment);
        assert_eq!(p.polygon, q.polygon);
        assert_eq!(
            (p.bbox.min_x, p.bbox.min_y, p.bbox.max_x, p.bbox.max_y),
            (q.bbox.min_x, q.bbox.min_y, q.bbox.max_x, q.bbox.max_y)
        );
        assert_eq!(p.layers.len(), q.layers.len());
        for (l, m) in p.layers.iter().zip(q.layers.iter()) {
            assert_eq!(l.stroke, m.stroke);
            match (&l.fill, &m.fill) {
                (FillSource::Flat(c), FillSource::Flat(d)) => assert_eq!(c, d),
                (FillSource::Textured(s), FillSource::Textured(t)) => {
                    assert_eq!(s.patch.width, t.patch.width);
                    assert_eq!(s.patch.height, t.patch.height);
                    assert_eq!(s.patch.pixels, t.patch.pixels);
                },
                _ => panic!("layer kinds differ between two identical renders"),
            }
        }
    }
}

#[test]
fn every_quad_vertex_lies_in_its_bounding_box() {
    // With no smoothing the planned polygon is the warped quad itself.
    let mut cfg = corner_fan_config(5, 0);
    cfg.noise_factor = 30;
    cfg.smoothing = 0;
    let plans = plan_render(&cfg, &small_palette(), &small_photo()).unwrap();
    assert_eq!(plans.len(), 8);
    for plan in &plans {
        assert_eq!(plan.polygon.len(), 4);
        for p in &plan.polygon {
            assert!(plan.bbox.min_x <= p.x && p.x <= plan.bbox.max_x);
            assert!(plan.bbox.min_y <= p.y && p.y <= plan.bbox.max_y);
        }
    }
}

#[test]
fn plan_rejects_bad_stop_sequences() {
    let mut cfg = corner_fan_config(1, 0);
    cfg.left_stops = vec![0, 9000, 5000, 10000];
    let res = plan_render(&cfg, &small_palette(), &small_photo());
    assert!(matches!(res, Err(RenderError::InvalidStops)));
}

#[test]
fn smoothing_doubles_planned_polygon_vertices() {
    let mut cfg = corner_fan_config(1, 0);
    cfg.smoothing = 2;
    let plans = plan_render(&cfg, &small_palette(), &small_photo()).unwrap();
    for plan in &plans {
        assert_eq!(plan.polygon.len(), 16);
    }
}

#[test]
fn stipple_and_grain_quads_carry_base_color_underlay() {
    // Scan seeds until the non-override quads hit a stipple or grain draw,
    // then check the two-layer structure the treatment paints.
    let mut seen_layered = false;
    for seed in 0..50u64 {
        let cfg = corner_fan_config(seed, 0);
        let plans = plan_render(&cfg, &small_palette(), &small_photo()).unwrap();
        for plan in &plans {
            match plan.treatment {
                Treatment::Stipple | Treatment::Grain => {
                    assert_eq!(plan.layers.len(), 2);
                    assert!(matches!(plan.layers[0].fill, FillSource::Flat(_)));
                    assert!(plan.layers[0].stroke.is_some());
                    assert!(matches!(plan.layers[1].fill, FillSource::Textured(_)));
                    seen_layered = true;
                },
                Treatment::Photo => {
                    assert_eq!(plan.layers.len(), 1);
                },
                _ => {
                    assert_eq!(plan.layers.len(), 1);
                    assert!(plan.layers[0].stroke.is_none());
                },
            }
        }
    }
    assert!(seen_layered, "no stipple or grain quad in fifty seeds");
}
