use outline_scene::params::ColorRgba;
use outline_scene::params::TunableParameters;
use outline_scene::params::clamp_scale;
use outline_scene::params::clamp_threshold;
use outline_scene::params::DEFAULT_DEPTH_NORMAL_THRESHOLD_BITS;
use outline_scene::params::DEFAULT_DEPTH_NORMAL_THRESHOLD_SCALE_BITS;
use outline_scene::params::DEFAULT_DEPTH_THRESHOLD_BITS;
use outline_scene::params::DEFAULT_NORMAL_THRESHOLD_BITS;
use outline_scene::params::ONE_BITS;
use outline_scene::params::THRESHOLD_MAX_BITS;
use outline_scene::params::ZERO_BITS;

#[test]
fn default_values_match_documented_floats() {
    let p = TunableParameters::default();
    assert_eq!(p.scale, 2);
    assert_eq!(p.depth_threshold, 0.2f32.to_bits());
    assert_eq!(p.normal_threshold, 0.4f32.to_bits());
    assert_eq!(p.depth_normal_threshold, 0.5f32.to_bits());
    assert_eq!(p.depth_normal_threshold_scale, 7.0f32.to_bits());
    let black = ColorRgba { red: ZERO_BITS, green: ZERO_BITS, blue: ZERO_BITS, alpha: ONE_BITS };
    assert_eq!(p.color, black);
    assert_eq!(p.color.red, 0.0f32.to_bits());
    assert_eq!(p.color.alpha, 1.0f32.to_bits());
}

#[test]
fn threshold_bound_is_twenty() {
    assert_eq!(THRESHOLD_MAX_BITS, 20.0f32.to_bits());
}

#[test]
fn scale_clamps_at_the_ui_boundary() {
    // a request of twenty-five exceeds the declared maximum of twenty
    assert_eq!(clamp_scale(25), 20);
    assert_eq!(clamp_scale(0), 1);
    assert_eq!(clamp_scale(1), 1);
    assert_eq!(clamp_scale(7), 7);
    assert_eq!(clamp_scale(20), 20);
    assert_eq!(clamp_scale(u32::MAX), 20);
}

#[test]
fn overlarge_scale_never_reaches_the_store() {
    let mut p = TunableParameters::default();
    p.ui_set_scale(25);
    assert_eq!(p.scale, 20);
    // only the scale changed
    assert_eq!(p.depth_threshold, DEFAULT_DEPTH_THRESHOLD_BITS);
    assert_eq!(p.normal_threshold, DEFAULT_NORMAL_THRESHOLD_BITS);
    assert_eq!(p.depth_normal_threshold, DEFAULT_DEPTH_NORMAL_THRESHOLD_BITS);
    assert_eq!(p.depth_normal_threshold_scale, DEFAULT_DEPTH_NORMAL_THRESHOLD_SCALE_BITS);
}

#[test]
fn threshold_clamp_agrees_with_float_clamp() {
    for v in [0.0f32, 0.25, 3.5, 19.99, 20.0, 20.001, 25.0, 1.0e10, -3.0, -0.5] {
        let clamped = clamp_threshold(v.to_bits());
        assert_eq!(clamped, v.clamp(0.0, 20.0).to_bits(), "value {v}");
    }
}

#[test]
fn threshold_clamp_sends_negative_zero_to_zero() {
    // the bit-pattern clamp folds the negative zero pattern into plain zero
    assert_eq!(clamp_threshold((-0.0f32).to_bits()), 0.0f32.to_bits());
}

#[test]
fn ui_threshold_setters_clamp() {
    let mut p = TunableParameters::default();
    p.ui_set_depth_threshold(25.0f32.to_bits());
    assert_eq!(p.depth_threshold, 20.0f32.to_bits());
    p.ui_set_normal_threshold((-1.0f32).to_bits());
    assert_eq!(p.normal_threshold, 0.0f32.to_bits());
    p.ui_set_depth_normal_threshold(0.75f32.to_bits());
    assert_eq!(p.depth_normal_threshold, 0.75f32.to_bits());
    p.ui_set_depth_normal_threshold_scale(19.5f32.to_bits());
    assert_eq!(p.depth_normal_threshold_scale, 19.5f32.to_bits());
    let gray = ColorRgba {
        red: 0.5f32.to_bits(),
        green: 0.5f32.to_bits(),
        blue: 0.5f32.to_bits(),
        alpha: 1.0f32.to_bits(),
    };
    p.ui_set_color(gray);
    assert_eq!(p.color, gray);
}
