use bevy_simpletoon::banding::{band_colour, quantize_intensity};
use bevy_simpletoon::settings::{Rgba, SettingsError, SimpletoonSettings, ONE};

#[test]
fn default_settings_hold_the_literal_values() {
    let s = SimpletoonSettings::default();
    assert_eq!(s.depth_threshold, 1000);
    assert_eq!(s.depth_threshold_depth_mul, 1000);
    assert_eq!(s.depth_normal_threshold, 400);
    assert_eq!(s.depth_normal_threshold_mul, 30000);
    assert_eq!(s.normal_threshold, 400);
    assert_eq!(s.colour_threshold, 200);
    assert_eq!(s.stroke_size, 1);
    assert_eq!(s.colour_banding, 5);
    assert_eq!(s.stroke_colour, Rgba::new(100, 100, 100, 1000));
    assert_eq!(s, SimpletoonSettings::default());
}

#[test]
fn default_settings_are_valid() {
    assert_eq!(SimpletoonSettings::default().validate(), Ok(()));
}

#[test]
fn zero_bands_are_refused() {
    let mut s = SimpletoonSettings::default();
    s.colour_banding = 0;
    assert_eq!(s.validate(), Err(SettingsError::BandingBelowOne));
    s.colour_banding = 1;
    assert_eq!(s.validate(), Ok(()));
}

#[test]
fn quantize_five_bands_exact_values() {
    assert_eq!(quantize_intensity(0, 5), 0);
    assert_eq!(quantize_intensity(199, 5), 0);
    assert_eq!(quantize_intensity(200, 5), 200);
    assert_eq!(quantize_intensity(599, 5), 400);
    assert_eq!(quantize_intensity(999, 5), 800);
    assert_eq!(quantize_intensity(1000, 5), 800);
    assert_eq!(quantize_intensity(u32::MAX, 5), 800);
}

#[test]
fn quantize_three_bands_rounds_levels_up() {
    assert_eq!(quantize_intensity(333, 3), 0);
    assert_eq!(quantize_intensity(334, 3), 334);
    assert_eq!(quantize_intensity(667, 3), 667);
    assert_eq!(quantize_intensity(1000, 3), 667);
}

fn distinct_levels_over_ramp(n: u32) -> Vec<u32> {
    let mut levels: Vec<u32> = Vec::new();
    for x in 0..=ONE {
        let q = quantize_intensity(x, n);
        if !levels.contains(&q) {
            levels.push(q);
        }
    }
    levels
}

#[test]
fn ramp_gives_exactly_n_levels() {
    for n in [1u32, 2, 3, 5, 7, 16, 255, 999, 1000] {
        assert_eq!(distinct_levels_over_ramp(n).len(), n as usize, "bands {}", n);
    }
    assert_eq!(distinct_levels_over_ramp(1), vec![0]);
    assert_eq!(distinct_levels_over_ramp(5), vec![0, 200, 400, 600, 800]);
}

#[test]
fn requantizing_is_a_no_op() {
    for n in [1u32, 2, 3, 5, 7, 64, 1000, 5000] {
        for x in 0..=1200u32 {
            let q = quantize_intensity(x, n);
            assert_eq!(quantize_intensity(q, n), q, "x {} bands {}", x, n);
            assert!(q <= x);
        }
    }
}

#[test]
fn grey_is_banded_down_to_its_level() {
    let c = Rgba::new(500, 500, 500, 1000);
    assert_eq!(band_colour(&c, 5), Rgba::new(400, 400, 400, 1000));
}

#[test]
fn banding_keeps_hue_and_alpha() {
    let c = Rgba::new(1000, 0, 0, 700);
    assert_eq!(band_colour(&c, 5), Rgba::new(668, 0, 0, 700));
}

#[test]
fn black_stays_black() {
    let c = Rgba::new(0, 0, 0, 250);
    assert_eq!(band_colour(&c, 5), Rgba::new(0, 0, 0, 250));
    let dim = Rgba::new(2, 0, 0, 250);
    assert_eq!(band_colour(&dim, 5), Rgba::new(0, 0, 0, 250));
}

#[test]
fn banding_already_banded_colour_is_stable() {
    let c = Rgba::new(400, 400, 400, 1000);
    assert_eq!(band_colour(&c, 5), c);
}
