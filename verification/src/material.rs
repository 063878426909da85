//! The single shared extended-material instance, reduced to what the logic
//! reads and writes: the extension's uniform fields, each carried as
//! single-precision bit patterns, and the column-major four-by-four matrix of
//! the clip-to-view transform.

use vstd::prelude::*;
use crate::params::ColorRgba;

verus! {

/// A four-component vector of single-precision bit patterns, the shape of
/// the color uniform.
#[derive(Clone, Copy, PartialEq, Eq, Structural, Debug)]
pub struct Vec4Bits {
    pub x: u32,
    pub y: u32,
    pub z: u32,
    pub w: u32,
}

/// A four-by-four matrix as sixteen single-precision bit patterns in
/// column-major order.
#[derive(PartialEq, Eq, Debug)]
pub struct Mat4Bits {
    pub entries: Vec<u32>,
}

impl Mat4Bits {
    /// A matrix holds exactly sixteen entries.
    pub open spec fn wf(self) -> bool {
        self.entries@.len() == 16
    }

    /// Copies a matrix entry for entry.
    pub fn duplicate(&self) -> (r: Mat4Bits)
        requires
            self.wf(),
        ensures
            r.entries@ == self.entries@,
            r.wf(),
    {
        let mut entries: Vec<u32> = Vec::new();
        let mut i: usize = 0;
        while i < self.entries.len()
            invariant
                i <= self.entries@.len(),
                entries@ == self.entries@.subrange(0, i as int),
            decreases self.entries@.len() - i,
        {
            entries.push(self.entries[i]);
            i = i + 1;
        }
        assert(entries@ == self.entries@);
        Mat4Bits { entries }
    }
}

/// The extension record of the shared material: the six uniform slots the
/// outline shader reads, in their declared order.
#[derive(PartialEq, Eq, Debug)]
pub struct ExtensionUniforms {
    pub scale: u32,
    pub depth_threshold: u32,
    pub depth_normal_threshold: u32,
    pub depth_normal_threshold_scale: u32,
    pub normal_threshold: u32,
    pub color: Vec4Bits,
    pub clip_to_view: Mat4Bits,
}

impl ExtensionUniforms {
    /// The instance's invariant: its matrix is well formed.
    pub open spec fn wf(self) -> bool {
        self.clip_to_view.wf()
    }
}

/// The four-component form of a color: the channel patterns in red, green,
/// blue, alpha order, unchanged.
pub open spec fn spec_color_vec4(c: ColorRgba) -> Vec4Bits {
    Vec4Bits { x: c.red, y: c.green, z: c.blue, w: c.alpha }
}

/// Converts a color to the vector the color uniform holds.
pub fn color_vec4(c: ColorRgba) -> (v: Vec4Bits)
    ensures
        v == spec_color_vec4(c),
{
    Vec4Bits { x: c.red, y: c.green, z: c.blue, w: c.alpha }
}

/// The six uniform slots of the extension, in the order the shader declares
/// them.
#[derive(Clone, Copy, PartialEq, Eq, Structural, Debug)]
pub enum UniformSlot {
    Scale,
    DepthThreshold,
    DepthNormalThreshold,
    DepthNormalThresholdScale,
    NormalThreshold,
    Color,
    ClipToView,
}

/// The fixed binding index of each uniform slot: consecutive indices from one
/// hundred, in declaration order.
pub open spec fn spec_uniform_binding(slot: UniformSlot) -> u32 {
    match slot {
        UniformSlot::Scale => 100,
        UniformSlot::DepthThreshold => 101,
        UniformSlot::DepthNormalThreshold => 102,
        UniformSlot::DepthNormalThresholdScale => 103,
        UniformSlot::NormalThreshold => 104,
        UniformSlot::Color => 105,
        UniformSlot::ClipToView => 106,
    }
}

/// Returns the binding index the shader is contracted to read the slot from.
pub fn uniform_binding(slot: UniformSlot) -> (r: u32)
    ensures
        r == spec_uniform_binding(slot),
{
    match slot {
        UniformSlot::Scale => 100,
        UniformSlot::DepthThreshold => 101,
        UniformSlot::DepthNormalThreshold => 102,
        UniformSlot::DepthNormalThresholdScale => 103,
        UniformSlot::NormalThreshold => 104,
        UniformSlot::Color => 105,
        UniformSlot::ClipToView => 106,
    }
}

/// No two uniform slots share a binding index.
pub proof fn lemma_uniform_bindings_distinct(a: UniformSlot, b: UniformSlot)
    requires
        a != b,
    ensures
        spec_uniform_binding(a) != spec_uniform_binding(b),
{
}

/// The shader source used for the standard fragment stage.
pub fn fragment_shader_path() -> (r: &'static str)
    ensures
        r@ == "shaders/outline.wgsl"@,
{
    "shaders/outline.wgsl"
}

/// The shader source used for the deferred fragment stage: the same file as
/// the standard stage.
pub fn deferred_fragment_shader_path() -> (r: &'static str)
    ensures
        r@ == "shaders/outline.wgsl"@,
{
    "shaders/outline.wgsl"
}

} // verus!
