use sapin::scaling::{window_size, ONE_BITS};
use sapin::shape::{Crosshair, Dot, Shape, ShapeSize};
use sapin::window::{center, WindowPosition};

fn scaled(w: u32, h: u32, factor: f64) -> ShapeSize {
    let mut s = ShapeSize::new(w, h);
    s.scale(factor.to_bits());
    s
}

#[test]
fn scaling_by_one_is_a_no_op() {
    assert_eq!(ONE_BITS, 1.0f64.to_bits());
    assert_eq!(scaled(22, 30, 1.0), ShapeSize::new(22, 30));
    assert_eq!(scaled(0, u32::MAX, 1.0), ShapeSize::new(0, u32::MAX));
}

#[test]
fn scaling_rounds_half_to_even() {
    // 27.5 -> 28, 22.5 -> 22
    assert_eq!(scaled(22, 18, 1.25), ShapeSize::new(28, 22));
    // 1.5 -> 2, 2.5 -> 2
    assert_eq!(scaled(3, 5, 0.5), ShapeSize::new(2, 2));
    assert_eq!(scaled(22, 21, 1.5), ShapeSize::new(33, 32));
    assert_eq!(scaled(22, 30, 2.0), ShapeSize::new(44, 60));
}

#[test]
fn scaling_rounds_each_dimension_on_its_own() {
    let s = scaled(7, 9, 1.1);
    assert_eq!(s.width, 8);
    assert_eq!(s.height, 10);
}

#[test]
fn scaling_saturates_and_clamps() {
    assert_eq!(scaled(22, 0, 1e300), ShapeSize::new(u32::MAX, 0));
    assert_eq!(scaled(22, 0, f64::INFINITY), ShapeSize::new(u32::MAX, 0));
    assert_eq!(scaled(22, 22, -1.5), ShapeSize::new(0, 0));
    assert_eq!(scaled(22, 22, f64::NAN), ShapeSize::new(0, 0));
    assert_eq!(scaled(22, 22, 1e-300), ShapeSize::new(0, 0));
    assert_eq!(scaled(u32::MAX, 1, 2.0), ShapeSize::new(u32::MAX, 2));
}

#[test]
fn scaling_rounds_the_f64_product() {
    // 15 * 1.1 is 16.5000000000000013 exactly, but 16.5 as an f64
    assert_eq!(15.0f64 * 1.1, 16.5);
    assert_eq!(scaled(15, 15, 1.1), ShapeSize::new(16, 16));
    let cross = Shape::Crosshair(Crosshair { size: 15, thickness: 2, gap: None });
    assert_eq!(window_size(&cross, 1.1f64.to_bits()), ShapeSize::new(16, 16));
}

fn float_scaled(w: u32, factor: f64) -> u32 {
    (w as f64 * factor).round_ties_even() as u32
}

#[test]
fn scaling_matches_float_rounding_on_display_factors() {
    for factor in [1.1f64, 1.15, 1.2, 1.25, 1.3, 1.4, 1.5, 1.75, 2.0, 2.25, 3.0, 0.75, 0.9] {
        for w in 0u32..500 {
            assert_eq!(scaled(w, w, factor).width, float_scaled(w, factor), "{w} at {factor}");
        }
    }
}

#[test]
fn scaling_matches_float_rounding_across_magnitudes() {
    let widths = [0u32, 1, 2, 3, 7, 15, 255, 1000, 65_535, 1 << 24, 123_456_789, u32::MAX - 1, u32::MAX];
    let mut factors = vec![
        f64::MIN_POSITIVE,
        5e-324,
        1e-310,
        1e-20,
        0.1,
        0.5,
        0.49999999999999994,
        1.0000000000000002,
        0.9999999999999999,
        1e10,
        1e300,
        f64::MAX,
    ];
    let mut f = 0.013f64;
    while f < 40.0 {
        factors.push(f);
        f = f * 1.37 + 0.0071;
    }
    for &factor in &factors {
        for &w in &widths {
            assert_eq!(scaled(w, w, factor).width, float_scaled(w, factor), "{w} at {factor}");
        }
    }
}

#[test]
fn window_size_scales_the_footprint() {
    let dot = Shape::Dot(Dot { radius: 4 });
    assert_eq!(window_size(&dot, 1.0f64.to_bits()), ShapeSize::new(8, 8));
    assert_eq!(window_size(&dot, 1.5f64.to_bits()), ShapeSize::new(12, 12));
    let cross = Shape::Crosshair(Crosshair { size: 22, thickness: 4, gap: Some(12) });
    assert_eq!(window_size(&cross, 1.25f64.to_bits()), ShapeSize::new(28, 28));
}

#[test]
fn centering_uses_floor_division_per_axis() {
    let p = center(1920, 1080, &ShapeSize::new(22, 22));
    assert_eq!(p, WindowPosition { x: 949, y: 529 });
    let p = center(1921, 1081, &ShapeSize::new(23, 31));
    assert_eq!(p, WindowPosition { x: 949, y: 525 });
}

#[test]
fn centering_a_window_larger_than_the_monitor() {
    let p = center(100, 50, &ShapeSize::new(300, 51));
    assert_eq!(p, WindowPosition { x: -100, y: 0 });
    let p = center(0, 0, &ShapeSize::new(u32::MAX, u32::MAX));
    assert_eq!(p, WindowPosition { x: -2147483647, y: -2147483647 });
}
