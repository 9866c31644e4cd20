//! Tests for contrast tables built from a power-law remap, the way a
//! caller of `ContrastCurve::from_table` builds them for an exponent
//! other than 1.

use glyphgrid::curve::ContrastCurve;

fn power_table(contrast: f32) -> Vec<u8> {
    (0..=255u16)
        .map(|v| {
            let normalized = v as f32 / 255.0;
            let adjusted = normalized.powf(contrast);
            (adjusted * 255.0).clamp(0.0, 255.0) as u8
        })
        .collect()
}

#[test]
fn power_tables_satisfy_the_curve_invariant() {
    for contrast in [0.5f32, 1.0, 1.5, 2.0, 4.0] {
        let table = power_table(contrast);
        assert!(ContrastCurve::from_table(table).is_some());
    }
}

#[test]
fn a_contrast_above_one_is_non_decreasing_and_darkens() {
    for contrast in [1.5f32, 2.0, 3.0] {
        let table = power_table(contrast);
        let curve = ContrastCurve::from_table(table).unwrap();
        for v in 1..=255u8 {
            assert!(curve.apply(v - 1) <= curve.apply(v));
        }
        for v in 1..255u8 {
            assert!(curve.apply(v) <= v);
        }
    }
}

#[test]
fn a_contrast_of_two_darkens_mid_gray() {
    let curve = ContrastCurve::from_table(power_table(2.0)).unwrap();
    assert!(curve.apply(128) < 128);
}
