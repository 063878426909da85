//! The parameter sync step: once per tick it copies the current tunable
//! parameters into the shared material's extension fields and installs the
//! clip-to-view matrix computed from the unique camera.
//!
//! Resolving the material may fail while the asset still streams; that tick
//! is then skipped for that holder with no error. The matrix itself is the
//! inverse of the camera's world transform; inverting is the host's
//! floating-point work, so the step takes the inverted matrix as an input.

use vstd::prelude::*;
use crate::float_bits::float_bits_of_uint;
use crate::float_bits::float_bits_of_small;
use crate::material::ExtensionUniforms;
use crate::material::Mat4Bits;
use crate::material::color_vec4;
use crate::material::spec_color_vec4;
use crate::params::TunableParameters;

verus! {

/// The extension fields mirror the snapshot exactly: each threshold pattern
/// unchanged, the scale as the pattern of its single-precision value, the
/// color in four-component form, and the given clip-to-view matrix.
pub open spec fn synced_with(
    ext: ExtensionUniforms,
    p: TunableParameters,
    clip_to_view: Seq<u32>,
) -> bool {
    &&& ext.scale == float_bits_of_uint(p.scale as nat)
    &&& ext.depth_threshold == p.depth_threshold
    &&& ext.depth_normal_threshold == p.depth_normal_threshold
    &&& ext.depth_normal_threshold_scale == p.depth_normal_threshold_scale
    &&& ext.normal_threshold == p.normal_threshold
    &&& ext.color == spec_color_vec4(p.color)
    &&& ext.clip_to_view.entries@ == clip_to_view
}

/// Builds the extension record that mirrors a snapshot: what any holder of
/// the shared material shows right after a successful sync.
pub fn synced_uniforms(p: &TunableParameters, clip_to_view: &Mat4Bits) -> (ext:
    ExtensionUniforms)
    requires
        p.scale >= 1,
        clip_to_view.wf(),
    ensures
        synced_with(ext, *p, clip_to_view.entries@),
        ext.wf(),
{
    ExtensionUniforms {
        scale: float_bits_of_small(p.scale as u32),
        depth_threshold: p.depth_threshold,
        depth_normal_threshold: p.depth_normal_threshold,
        depth_normal_threshold_scale: p.depth_normal_threshold_scale,
        normal_threshold: p.normal_threshold,
        color: color_vec4(p.color),
        clip_to_view: clip_to_view.duplicate(),
    }
}

/// One sync for one holder of the shared material. `resolved` reports whether
/// the material asset resolved this tick: when it did not, the step skips the
/// holder and changes nothing; when it did, every extension field is
/// overwritten from the snapshot.
pub fn sync_step(
    ext: &mut ExtensionUniforms,
    p: &TunableParameters,
    clip_to_view: &Mat4Bits,
    resolved: bool,
)
    requires
        p.scale >= 1,
        clip_to_view.wf(),
    ensures
        resolved ==> synced_with(*final(ext), *p, clip_to_view.entries@),
        resolved ==> final(ext).wf(),
        !resolved ==> *final(ext) == *old(ext),
{
    if !resolved {
        return ;
    }
    ext.scale = float_bits_of_small(p.scale as u32);
    ext.depth_threshold = p.depth_threshold;
    ext.depth_normal_threshold = p.depth_normal_threshold;
    ext.depth_normal_threshold_scale = p.depth_normal_threshold_scale;
    ext.normal_threshold = p.normal_threshold;
    ext.color = color_vec4(p.color);
    ext.clip_to_view = clip_to_view.duplicate();
}

/// The single-camera assumption made explicit: the clip-to-view matrix comes
/// from "the" camera, so the lookup is meaningful only when exactly one
/// camera exists. With zero or several cameras this reports the breach
/// instead of silently picking one.
pub fn unique_camera_matrix(cameras: &Vec<Mat4Bits>) -> (r: Option<&Mat4Bits>)
    ensures
        (r matches Some(m) ==> cameras@.len() == 1 && *m == cameras@[0]),
        (r is None ==> cameras@.len() != 1),
{
    if cameras.len() == 1 {
        Some(&cameras[0])
    } else {
        None
    }
}

/// One tick of the sync step over every holder of the shared material:
/// holders whose material resolved this tick end mirroring the snapshot, the
/// others keep their previous fields.
pub fn sync_tick(
    holders: &mut Vec<ExtensionUniforms>,
    resolves: &Vec<bool>,
    p: &TunableParameters,
    clip_to_view: &Mat4Bits,
)
    requires
        resolves@.len() == old(holders)@.len(),
        p.scale >= 1,
        clip_to_view.wf(),
    ensures
        final(holders)@.len() == old(holders)@.len(),
        forall|i: int|
            0 <= i < old(holders)@.len() && resolves@[i] ==> #[trigger] synced_with(
                final(holders)@[i],
                *p,
                clip_to_view.entries@,
            ),
        forall|i: int|
            0 <= i < old(holders)@.len() && !resolves@[i] ==> final(holders)@[i] == old(
                holders,
            )@[i],
{
    let n: usize = holders.len();
    let mut i: usize = 0;
    while i < n
        invariant
            n == old(holders)@.len(),
            resolves@.len() == n,
            i <= n,
            p.scale >= 1,
            clip_to_view.wf(),
            holders@.len() == n,
            forall|j: int|
                0 <= j < i && resolves@[j] ==> #[trigger] synced_with(
                    holders@[j],
                    *p,
                    clip_to_view.entries@,
                ),
            forall|j: int| i <= j < n ==> holders@[j] == old(holders)@[j],
            forall|j: int| 0 <= j < i && !resolves@[j] ==> holders@[j] == old(holders)@[j],
        decreases n - i,
    {
        if resolves[i] {
            let fresh: ExtensionUniforms = synced_uniforms(p, clip_to_view);
            holders[i] = fresh;
        }
        i = i + 1;
    }
}

} // verus!
