//! The one-time bootstrap plan: which scenes to request, where to place
//! them, the light, the camera, and the startup state of the parameter store
//! and the shared material.
//!
//! The host engine performs the actual spawning and asset loading; the plan
//! records every decision as plain data. Translations and scalar settings
//! are single-precision bit patterns; an authored rotation is an exact
//! rational multiple of pi, applied about one axis at a time in order.

use vstd::prelude::*;
use crate::material::ExtensionUniforms;
use crate::material::Mat4Bits;
use crate::param_sync::synced_uniforms;
use crate::param_sync::synced_with;
use crate::params::TunableParameters;
use crate::params::ZERO_BITS;
use crate::params::ONE_BITS;

verus! {

/// Bit pattern of single-precision two.
pub const TWO_BITS: u32 = 0x4000_0000;

/// Bit pattern of single-precision five.
pub const FIVE_BITS: u32 = 0x40A0_0000;

/// Bit pattern of single-precision eight.
pub const EIGHT_BITS: u32 = 0x4100_0000;

/// Bit pattern of single-precision minus three.
pub const NEG_THREE_BITS: u32 = 0xC040_0000;

/// Bit pattern of single-precision minus five.
pub const NEG_FIVE_BITS: u32 = 0xC0A0_0000;

/// Bit pattern of single-precision minus ten.
pub const NEG_TEN_BITS: u32 = 0xC120_0000;

/// Bit pattern of single-precision minus fifteen.
pub const NEG_FIFTEEN_BITS: u32 = 0xC170_0000;

/// Bit pattern of single-precision two hundred and fifty, the skybox
/// intensity multiplier.
pub const SKYBOX_BRIGHTNESS_BITS: u32 = 0x437A_0000;

/// A translation as three single-precision bit patterns.
#[derive(Clone, Copy, PartialEq, Eq, Structural, Debug)]
pub struct Vec3Bits {
    pub x: u32,
    pub y: u32,
    pub z: u32,
}

/// The axis a single authored rotation turns about.
#[derive(Clone, Copy, PartialEq, Eq, Structural, Debug)]
pub enum Axis {
    X,
    Y,
    Z,
}

/// One authored rotation: an angle of pi times `num` over `den` radians
/// about one axis. The rational form keeps the authored value exact.
#[derive(Clone, Copy, PartialEq, Eq, Structural, Debug)]
pub struct RotationOp {
    pub axis: Axis,
    pub num: i32,
    pub den: u32,
}

/// A hand-authored placement: a translation, a list of rotations applied in
/// order, and optionally a final orientation toward the world origin with
/// the vertical axis up.
#[derive(PartialEq, Eq, Debug)]
pub struct Placement {
    pub translation: Vec3Bits,
    pub rotations: Vec<RotationOp>,
    pub look_at_origin: bool,
}

/// The three authored mesh scenes.
#[derive(Clone, Copy, PartialEq, Eq, Structural, Debug)]
pub enum SceneModel {
    Stairs,
    Torus,
    Teapot,
}

/// One requested scene load: which model, where, and tagged pending until
/// the instance reports ready.
#[derive(PartialEq, Eq, Debug)]
pub struct ScenePlan {
    pub model: SceneModel,
    pub placement: Placement,
    pub pending: bool,
}

/// The directional light: placed, and tagged to rotate every tick.
#[derive(PartialEq, Eq, Debug)]
pub struct LightPlan {
    pub placement: Placement,
    pub rotating: bool,
}

/// The single camera: placed looking at the origin, a perspective projection
/// with the given near plane, a skybox with the given intensity, the two
/// auxiliary pre-passes the outline shader needs, and orbit-style controls.
#[derive(PartialEq, Eq, Debug)]
pub struct CameraPlan {
    pub placement: Placement,
    pub near_plane_bits: u32,
    pub skybox_brightness_bits: u32,
    pub depth_prepass: bool,
    pub normal_prepass: bool,
    pub orbit_control: bool,
}

/// Everything the bootstrap decides, as one record.
#[derive(PartialEq, Eq, Debug)]
pub struct BootstrapPlan {
    pub parameters: TunableParameters,
    pub extension: ExtensionUniforms,
    pub scenes: Vec<ScenePlan>,
    pub light: LightPlan,
    pub camera: CameraPlan,
}

/// The stairs scene: translated to minus five, zero, minus ten, then turned
/// four fifths of pi about the vertical axis, minus one eleventh of pi about
/// the lateral axis, and minus one eighth of pi about the depth axis.
pub open spec fn is_stairs_plan(s: ScenePlan) -> bool {
    &&& s.model == SceneModel::Stairs
    &&& s.pending
    &&& s.placement.translation == (Vec3Bits { x: NEG_FIVE_BITS, y: ZERO_BITS, z: NEG_TEN_BITS })
    &&& !s.placement.look_at_origin
    &&& s.placement.rotations@.len() == 3
    &&& s.placement.rotations@[0] == (RotationOp { axis: Axis::Y, num: 4, den: 5 })
    &&& s.placement.rotations@[1] == (RotationOp { axis: Axis::X, num: -1i32, den: 11 })
    &&& s.placement.rotations@[2] == (RotationOp { axis: Axis::Z, num: -1i32, den: 8 })
}

/// The torus scene: translated to eight, two, minus fifteen, unrotated.
pub open spec fn is_torus_plan(s: ScenePlan) -> bool {
    &&& s.model == SceneModel::Torus
    &&& s.pending
    &&& s.placement.translation == (Vec3Bits { x: EIGHT_BITS, y: TWO_BITS, z: NEG_FIFTEEN_BITS })
    &&& !s.placement.look_at_origin
    &&& s.placement.rotations@.len() == 0
}

/// The teapot scene: translated to zero, minus three, minus ten, then turned
/// one sixth of pi about the lateral axis and minus one sixth of pi about
/// the depth axis.
pub open spec fn is_teapot_plan(s: ScenePlan) -> bool {
    &&& s.model == SceneModel::Teapot
    &&& s.pending
    &&& s.placement.translation == (Vec3Bits { x: ZERO_BITS, y: NEG_THREE_BITS, z: NEG_TEN_BITS })
    &&& !s.placement.look_at_origin
    &&& s.placement.rotations@.len() == 2
    &&& s.placement.rotations@[0] == (RotationOp { axis: Axis::X, num: 1, den: 6 })
    &&& s.placement.rotations@[1] == (RotationOp { axis: Axis::Z, num: -1i32, den: 6 })
}

/// The light: at one, one, one, oriented toward the origin, rotating.
pub open spec fn is_light_plan(l: LightPlan) -> bool {
    &&& l.placement.translation == (Vec3Bits { x: ONE_BITS, y: ONE_BITS, z: ONE_BITS })
    &&& l.placement.look_at_origin
    &&& l.placement.rotations@.len() == 0
    &&& l.rotating
}

/// The camera: at zero, zero, five, looking at the origin, near plane one,
/// the documented skybox intensity, both pre-passes on, orbit controls on.
pub open spec fn is_camera_plan(c: CameraPlan) -> bool {
    &&& c.placement.translation == (Vec3Bits { x: ZERO_BITS, y: ZERO_BITS, z: FIVE_BITS })
    &&& c.placement.look_at_origin
    &&& c.placement.rotations@.len() == 0
    &&& c.near_plane_bits == ONE_BITS
    &&& c.skybox_brightness_bits == SKYBOX_BRIGHTNESS_BITS
    &&& c.depth_prepass
    &&& c.normal_prepass
    &&& c.orbit_control
}

/// Builds the whole bootstrap plan. The store and the shared material start
/// in agreement: the extension fields mirror the default parameters, with
/// the given clip-to-view matrix — the inverse of the camera's initial world
/// transform, inverted by the host.
pub fn bootstrap_plan(initial_clip_to_view: &Mat4Bits) -> (plan: BootstrapPlan)
    requires
        initial_clip_to_view.wf(),
    ensures
        plan.parameters == TunableParameters::spec_default(),
        plan.parameters.valid(),
        synced_with(plan.extension, plan.parameters, initial_clip_to_view.entries@),
        plan.extension.wf(),
        plan.scenes@.len() == 3,
        is_stairs_plan(plan.scenes@[0]),
        is_torus_plan(plan.scenes@[1]),
        is_teapot_plan(plan.scenes@[2]),
        is_light_plan(plan.light),
        is_camera_plan(plan.camera),
{
    let parameters: TunableParameters = TunableParameters::default();
    let extension: ExtensionUniforms = synced_uniforms(&parameters, initial_clip_to_view);

    let mut stairs_rotations: Vec<RotationOp> = Vec::new();
    stairs_rotations.push(RotationOp { axis: Axis::Y, num: 4, den: 5 });
    stairs_rotations.push(RotationOp { axis: Axis::X, num: -1, den: 11 });
    stairs_rotations.push(RotationOp { axis: Axis::Z, num: -1, den: 8 });
    let stairs: ScenePlan = ScenePlan {
        model: SceneModel::Stairs,
        placement: Placement {
            translation: Vec3Bits { x: NEG_FIVE_BITS, y: ZERO_BITS, z: NEG_TEN_BITS },
            rotations: stairs_rotations,
            look_at_origin: false,
        },
        pending: true,
    };

    let torus: ScenePlan = ScenePlan {
        model: SceneModel::Torus,
        placement: Placement {
            translation: Vec3Bits { x: EIGHT_BITS, y: TWO_BITS, z: NEG_FIFTEEN_BITS },
            rotations: Vec::new(),
            look_at_origin: false,
        },
        pending: true,
    };

    let mut teapot_rotations: Vec<RotationOp> = Vec::new();
    teapot_rotations.push(RotationOp { axis: Axis::X, num: 1, den: 6 });
    teapot_rotations.push(RotationOp { axis: Axis::Z, num: -1, den: 6 });
    let teapot: ScenePlan = ScenePlan {
        model: SceneModel::Teapot,
        placement: Placement {
            translation: Vec3Bits { x: ZERO_BITS, y: NEG_THREE_BITS, z: NEG_TEN_BITS },
            rotations: teapot_rotations,
            look_at_origin: false,
        },
        pending: true,
    };

    let mut scenes: Vec<ScenePlan> = Vec::new();
    scenes.push(stairs);
    scenes.push(torus);
    scenes.push(teapot);

    let light: LightPlan = LightPlan {
        placement: Placement {
            translation: Vec3Bits { x: ONE_BITS, y: ONE_BITS, z: ONE_BITS },
            rotations: Vec::new(),
            look_at_origin: true,
        },
        rotating: true,
    };

    let camera: CameraPlan = CameraPlan {
        placement: Placement {
            translation: Vec3Bits { x: ZERO_BITS, y: ZERO_BITS, z: FIVE_BITS },
            rotations: Vec::new(),
            look_at_origin: true,
        },
        near_plane_bits: ONE_BITS,
        skybox_brightness_bits: SKYBOX_BRIGHTNESS_BITS,
        depth_prepass: true,
        normal_prepass: true,
        orbit_control: true,
    };

    BootstrapPlan { parameters, extension, scenes, light, camera }
}

/// The asset path of each authored scene, with its named sub-scene.
pub fn model_path(model: SceneModel) -> (r: &'static str)
    ensures
        model == SceneModel::Stairs ==> r@ == "models/stairs.glb#Scene0"@,
        model == SceneModel::Torus ==> r@ == "models/torus.glb#Scene0"@,
        model == SceneModel::Teapot ==> r@ == "models/teapot.glb#Scene0"@,
{
    match model {
        SceneModel::Stairs => "models/stairs.glb#Scene0",
        SceneModel::Torus => "models/torus.glb#Scene0",
        SceneModel::Teapot => "models/teapot.glb#Scene0",
    }
}

/// The asset path of the pre-filtered environment cubemap the skybox shows.
pub fn skybox_path() -> (r: &'static str)
    ensures
        r@ == "textures/Ryfjallet_cubemap_bc7.ktx2"@,
{
    "textures/Ryfjallet_cubemap_bc7.ktx2"
}

} // verus!
