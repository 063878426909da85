use outline_scene::float_bits::float_bits_of_small;
use outline_scene::material::ExtensionUniforms;
use outline_scene::material::Mat4Bits;
use outline_scene::material::Vec4Bits;
use outline_scene::param_sync::sync_step;
use outline_scene::param_sync::sync_tick;
use outline_scene::param_sync::synced_uniforms;
use outline_scene::param_sync::unique_camera_matrix;
use outline_scene::params::ColorRgba;
use outline_scene::params::TunableParameters;

fn matrix(values: [f32; 16]) -> Mat4Bits {
    let mut entries: Vec<u32> = Vec::new();
    for v in values {
        entries.push(v.to_bits());
    }
    Mat4Bits { entries }
}

fn scrambled_uniforms() -> ExtensionUniforms {
    ExtensionUniforms {
        scale: 0xDEAD_BEEF,
        depth_threshold: 1,
        depth_normal_threshold: 2,
        depth_normal_threshold_scale: 3,
        normal_threshold: 4,
        color: Vec4Bits { x: 5, y: 6, z: 7, w: 8 },
        clip_to_view: matrix([9.0; 16]),
    }
}

#[test]
fn float_bits_match_the_float_cast() {
    for n in 1u32..=20 {
        assert_eq!(float_bits_of_small(n), (n as f32).to_bits(), "n {n}");
    }
    for n in [21u32, 100, 255, 256, 1023, 4096, 1_234_567, 0xFF_FFFF] {
        assert_eq!(float_bits_of_small(n), (n as f32).to_bits(), "n {n}");
    }
}

#[test]
fn sync_copies_every_field_componentwise() {
    let p = TunableParameters {
        scale: 13,
        depth_threshold: 0.125f32.to_bits(),
        depth_normal_threshold: 11.5f32.to_bits(),
        depth_normal_threshold_scale: 7.25f32.to_bits(),
        normal_threshold: 0.75f32.to_bits(),
        color: ColorRgba {
            red: 0.25f32.to_bits(),
            green: 0.5f32.to_bits(),
            blue: 0.125f32.to_bits(),
            alpha: 1.0f32.to_bits(),
        },
    };
    let clip = matrix([
        1.0, 2.0, 3.0, 4.0, 5.0, 6.0, 7.0, 8.0, 9.0, 10.0, 11.0, 12.0, 13.0, 14.0, 15.0, 16.0,
    ]);
    let mut ext = scrambled_uniforms();
    sync_step(&mut ext, &p, &clip, true);
    assert_eq!(ext.scale, 13.0f32.to_bits());
    assert_eq!(ext.depth_threshold, p.depth_threshold);
    assert_eq!(ext.normal_threshold, p.normal_threshold);
    assert_eq!(ext.depth_normal_threshold, p.depth_normal_threshold);
    assert_eq!(ext.depth_normal_threshold_scale, p.depth_normal_threshold_scale);
    assert_eq!(
        ext.color,
        Vec4Bits { x: p.color.red, y: p.color.green, z: p.color.blue, w: p.color.alpha }
    );
    assert_eq!(ext.clip_to_view.entries, clip.entries);
}

#[test]
fn sync_skips_an_unresolved_material() {
    let p = TunableParameters::default();
    let clip = matrix([0.0; 16]);
    let mut ext = scrambled_uniforms();
    let before = scrambled_uniforms();
    sync_step(&mut ext, &p, &clip, false);
    assert_eq!(ext, before);
}

#[test]
fn sync_tick_touches_only_resolved_holders() {
    let p = TunableParameters::default();
    let clip = matrix([2.5; 16]);
    let mut holders = vec![scrambled_uniforms(), scrambled_uniforms(), scrambled_uniforms()];
    let resolves = vec![true, false, true];
    sync_tick(&mut holders, &resolves, &p, &clip);
    let expected = synced_uniforms(&p, &clip);
    assert_eq!(holders[0], expected);
    assert_eq!(holders[1], scrambled_uniforms());
    assert_eq!(holders[2], expected);
}

#[test]
fn initial_camera_sync_scenario() {
    // the camera starts at height zero, depth five, looking at the origin
    // with the vertical axis up: an identity rotation, so the inverse of its
    // world matrix is a translation by minus five along the depth axis
    let inverse_of_initial_camera = matrix([
        1.0, 0.0, 0.0, 0.0, 0.0, 1.0, 0.0, 0.0, 0.0, 0.0, 1.0, 0.0, 0.0, 0.0, -5.0, 1.0,
    ]);
    let p = TunableParameters::default();
    let mut ext = scrambled_uniforms();
    sync_step(&mut ext, &p, &inverse_of_initial_camera, true);
    assert_eq!(ext.scale, 2.0f32.to_bits());
    assert_eq!(ext.clip_to_view.entries, inverse_of_initial_camera.entries);
}

#[test]
fn camera_lookup_requires_exactly_one_camera() {
    let none: Vec<Mat4Bits> = Vec::new();
    assert!(unique_camera_matrix(&none).is_none());
    let one = vec![matrix([4.0; 16])];
    let found = unique_camera_matrix(&one).expect("one camera resolves");
    assert_eq!(found.entries, one[0].entries);
    let two = vec![matrix([4.0; 16]), matrix([8.0; 16])];
    assert!(unique_camera_matrix(&two).is_none());
}
