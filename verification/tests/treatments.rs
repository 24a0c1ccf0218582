use rand::{Rng, SeedableRng};
use rand_pcg::Pcg64;

use perspective_grid::palette::{desaturate_color, Palette, Rgba8};
use perspective_grid::pattern::{photo_patch, Pattern, PhotoSource};
use perspective_grid::rng::SeededRandomStream;
use perspective_grid::texture::synthesize;
use perspective_grid::treatment::{bucket_table, resolve_treatment, select_treatment, Treatment};
use perspective_grid::RenderError;

#[test]
fn stream_matches_pcg64() {
    let mut stream = SeededRandomStream::new(717);
    let mut reference = Pcg64::seed_from_u64(717);
    for _ in 0..20 {
        let ours = stream.next_below(100);
        let theirs: u64 = reference.gen_range(0..100u64);
        assert_eq!(ours, theirs);
    }
}

#[test]
fn stream_same_seed_same_values() {
    let mut a = SeededRandomStream::new(42);
    let mut b = SeededRandomStream::new(42);
    for bound in [2u64, 3, 100, 1000, 7] {
        assert_eq!(a.next_below(bound), b.next_below(bound));
    }
}

#[test]
fn bucket_table_partitions_the_range() {
    let table = bucket_table();
    for d in 0..100u64 {
        let hits = table.iter().filter(|b| b.lo <= d && d < b.hi).count();
        assert_eq!(hits, 1, "draw {} must fall in exactly one bucket", d);
    }
}

#[test]
fn bucket_boundaries() {
    assert_eq!(resolve_treatment(0), Treatment::Stipple);
    assert_eq!(resolve_treatment(9), Treatment::Stipple);
    assert_eq!(resolve_treatment(10), Treatment::Wood);
    assert_eq!(resolve_treatment(15), Treatment::Wood);
    assert_eq!(resolve_treatment(16), Treatment::Marble);
    assert_eq!(resolve_treatment(29), Treatment::Marble);
    assert_eq!(resolve_treatment(30), Treatment::Ridge);
    assert_eq!(resolve_treatment(39), Treatment::Ridge);
    assert_eq!(resolve_treatment(40), Treatment::Stripe);
    assert_eq!(resolve_treatment(49), Treatment::Stripe);
    assert_eq!(resolve_treatment(50), Treatment::Sand);
    assert_eq!(resolve_treatment(55), Treatment::Sand);
    assert_eq!(resolve_treatment(56), Treatment::Granite);
    assert_eq!(resolve_treatment(69), Treatment::Granite);
    assert_eq!(resolve_treatment(70), Treatment::Grain);
    assert_eq!(resolve_treatment(99), Treatment::Grain);
}

#[test]
fn override_index_selects_photo_without_consuming() {
    for seed in [0u64, 1, 717, u64::MAX] {
        let mut stream = SeededRandomStream::new(seed);
        let t = select_treatment(5, 5, &mut stream);
        assert_eq!(t, Treatment::Photo);
        // No draw was consumed by the override: the next draw is the first
        // draw of a fresh stream with the same seed.
        let mut fresh = SeededRandomStream::new(seed);
        assert_eq!(stream.next_below(100), fresh.next_below(100));
    }
}

#[test]
fn non_override_consumes_one_draw() {
    let mut stream = SeededRandomStream::new(9);
    let mut reference = Pcg64::seed_from_u64(9);
    let t = select_treatment(3, 5, &mut stream);
    let expected: u64 = reference.gen_range(0..100u64);
    assert_eq!(t, resolve_treatment(expected));
}

#[test]
fn palette_refuses_empty_and_samples_in_range() {
    assert!(matches!(Palette::new(vec![]), Err(RenderError::EmptyPalette)));
    let colors = vec![
        Rgba8 { r: 1, g: 0, b: 0, a: 255 },
        Rgba8 { r: 0, g: 2, b: 0, a: 255 },
        Rgba8 { r: 0, g: 0, b: 3, a: 255 },
    ];
    let p = Palette::new(colors.clone()).unwrap();
    let mut stream = SeededRandomStream::new(1);
    let mut reference = Pcg64::seed_from_u64(1);
    for _ in 0..10 {
        let c = p.sample(&mut stream);
        let idx: u64 = reference.gen_range(0..3u64);
        assert_eq!(c, colors[idx as usize]);
    }
}

#[test]
fn desaturation_moves_channels_toward_luminance() {
    let c = Rgba8 { r: 200, g: 100, b: 0, a: 255 };
    // Luminance: (200*299 + 100*587 + 0*114) / 1000 = 118.
    let d = desaturate_color(c, 500);
    assert_eq!(d, Rgba8 { r: 159, g: 109, b: 59, a: 255 });
    let full = desaturate_color(c, 1000);
    assert_eq!(full, Rgba8 { r: 118, g: 118, b: 118, a: 255 });
    let none = desaturate_color(c, 0);
    assert_eq!(none, c);
}

#[test]
fn palette_desaturate_applies_to_every_color() {
    let colors = vec![
        Rgba8 { r: 200, g: 100, b: 0, a: 255 },
        Rgba8 { r: 0, g: 0, b: 255, a: 255 },
    ];
    let mut p = Palette::new(colors.clone()).unwrap();
    p.desaturate(1000);
    assert_eq!(p.len(), 2);
    assert_eq!(p.color_at(0), Rgba8 { r: 118, g: 118, b: 118, a: 255 });
    // Luminance of pure blue: 255*114/1000 = 29.
    assert_eq!(p.color_at(1), Rgba8 { r: 29, g: 29, b: 29, a: 255 });
}

#[test]
fn stripe_texture_alternates_bands() {
    let c1 = Rgba8 { r: 10, g: 0, b: 0, a: 255 };
    let c2 = Rgba8 { r: 0, g: 20, b: 0, a: 255 };
    let patch = synthesize(Treatment::Stripe, 4, 8, c1, c2, 2);
    assert_eq!(patch.width, 4);
    assert_eq!(patch.height, 8);
    assert_eq!(patch.pixels.len(), 32);
    for y in 0..8usize {
        for x in 0..4usize {
            let expected = if (y / 2) % 2 == 0 { c1 } else { c2 };
            assert_eq!(patch.pixels[y * 4 + x], expected, "pixel ({}, {})", x, y);
        }
    }
}

#[test]
fn textures_are_deterministic() {
    let c1 = Rgba8 { r: 200, g: 10, b: 10, a: 255 };
    let c2 = Rgba8 { r: 10, g: 10, b: 200, a: 255 };
    for kind in [
        Treatment::Stipple,
        Treatment::Wood,
        Treatment::Marble,
        Treatment::Ridge,
        Treatment::Stripe,
        Treatment::Sand,
        Treatment::Granite,
        Treatment::Grain,
    ] {
        let a = synthesize(kind, 16, 16, c1, c2, 8);
        let b = synthesize(kind, 16, 16, c1, c2, 8);
        assert_eq!(a.pixels, b.pixels);
        assert_eq!(a.pixels.len(), 256);
    }
}

#[test]
fn two_tone_textures_use_both_colors() {
    let c1 = Rgba8 { r: 200, g: 10, b: 10, a: 255 };
    let c2 = Rgba8 { r: 10, g: 10, b: 200, a: 255 };
    for (kind, param) in [
        (Treatment::Sand, 5000),
        (Treatment::Granite, 5000),
        (Treatment::Stripe, 5),
    ] {
        let patch = synthesize(kind, 32, 32, c1, c2, param);
        let ones = patch.pixels.iter().filter(|p| **p == c1).count();
        let twos = patch.pixels.iter().filter(|p| **p == c2).count();
        assert_eq!(ones + twos, 1024);
        assert!(ones > 0, "{:?} never used its first color", kind);
        assert!(twos > 0, "{:?} never used its second color", kind);
    }
}

#[test]
fn pattern_sampling_maps_and_clamps() {
    let c1 = Rgba8 { r: 1, g: 0, b: 0, a: 255 };
    let c2 = Rgba8 { r: 0, g: 1, b: 0, a: 255 };
    // A 2-band horizontal stripe patch over a 100x100 box at (50, 50).
    let patch = synthesize(Treatment::Stripe, 10, 10, c1, c2, 5);
    let pattern = Pattern {
        patch,
        target: perspective_grid::geom::BoundingBox {
            min_x: 50,
            min_y: 50,
            max_x: 150,
            max_y: 150,
        },
    };
    // Top half of the box maps to the first band, bottom half to the second.
    assert_eq!(pattern.sample(60, 60), c1);
    assert_eq!(pattern.sample(60, 140), c2);
    // Outside the box the patch is clamped to its edges.
    assert_eq!(pattern.sample(-1000, -1000), c1);
    assert_eq!(pattern.sample(1000, 1000), c2);
}

#[test]
fn photo_source_checks_layout() {
    assert!(matches!(PhotoSource::new(2, 2, vec![0; 15]), Err(RenderError::Resource)));
    assert!(matches!(PhotoSource::new(0, 2, vec![]), Err(RenderError::Resource)));
    assert!(PhotoSource::new(2, 2, vec![0; 16]).is_ok());
}

#[test]
fn photo_patch_resizes_to_target_dimensions() {
    let photo = PhotoSource::new(2, 2, vec![128; 16]).unwrap();
    let patch = photo_patch(&photo, 5, 3);
    assert_eq!(patch.width, 5);
    assert_eq!(patch.height, 3);
    assert_eq!(patch.pixels.len(), 15);
    // Resampling is deterministic.
    let again = photo_patch(&photo, 5, 3);
    assert_eq!(patch.pixels, again.pixels);
}
