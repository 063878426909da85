//! The store of live-tunable outline parameters.
//!
//! The inspector panel edits these values at arbitrary times; the parameter
//! sync step reads one snapshot per tick. Threshold values are carried as the
//! bit patterns of IEEE 754 single-precision numbers. For patterns with a
//! clear sign bit that ordering agrees with the numeric ordering of the values
//! they encode, so the declared range zero to twenty is exactly the patterns
//! up to `THRESHOLD_MAX_BITS`.

use vstd::prelude::*;

verus! {

/// Smallest scale the inspector allows.
pub const SCALE_MIN: u8 = 1;

/// Largest scale the inspector allows.
pub const SCALE_MAX: u8 = 20;

/// Bit pattern of single-precision twenty, the largest threshold the
/// inspector allows.
pub const THRESHOLD_MAX_BITS: u32 = 0x41A0_0000;

/// Bit pattern of single-precision one fifth, the default depth threshold.
pub const DEFAULT_DEPTH_THRESHOLD_BITS: u32 = 0x3E4C_CCCD;

/// Bit pattern of single-precision two fifths, the default normal threshold.
pub const DEFAULT_NORMAL_THRESHOLD_BITS: u32 = 0x3ECC_CCCD;

/// Bit pattern of single-precision one half, the default depth-normal
/// threshold.
pub const DEFAULT_DEPTH_NORMAL_THRESHOLD_BITS: u32 = 0x3F00_0000;

/// Bit pattern of single-precision seven, the default depth-normal threshold
/// scale.
pub const DEFAULT_DEPTH_NORMAL_THRESHOLD_SCALE_BITS: u32 = 0x40E0_0000;

/// The default scale.
pub const DEFAULT_SCALE: u8 = 2;

/// Bit pattern of single-precision zero.
pub const ZERO_BITS: u32 = 0x0000_0000;

/// Bit pattern of single-precision one.
pub const ONE_BITS: u32 = 0x3F80_0000;

/// A color with red, green, blue and alpha channels, each carried as the bit
/// pattern of a single-precision value.
#[derive(Clone, Copy, PartialEq, Eq, Structural, Debug)]
pub struct ColorRgba {
    pub red: u32,
    pub green: u32,
    pub blue: u32,
    pub alpha: u32,
}

impl ColorRgba {
    /// Opaque black: all channels zero but a full alpha.
    pub open spec fn spec_black() -> ColorRgba {
        ColorRgba { red: ZERO_BITS, green: ZERO_BITS, blue: ZERO_BITS, alpha: ONE_BITS }
    }

    /// Returns opaque black, the default outline color.
    pub fn black() -> (c: ColorRgba)
        ensures
            c == ColorRgba::spec_black(),
    {
        ColorRgba { red: ZERO_BITS, green: ZERO_BITS, blue: ZERO_BITS, alpha: ONE_BITS }
    }
}

/// The tunable outline parameters: one process-wide snapshot, edited by the
/// inspector panel and read once per tick by the parameter sync step.
#[derive(Clone, Copy, PartialEq, Eq, Structural, Debug)]
pub struct TunableParameters {
    pub scale: u8,
    pub depth_threshold: u32,
    pub depth_normal_threshold: u32,
    pub depth_normal_threshold_scale: u32,
    pub normal_threshold: u32,
    pub color: ColorRgba,
}

/// True when a threshold pattern lies in the inspector's declared range:
/// sign bit clear and value at most twenty.
pub open spec fn threshold_in_range(bits: u32) -> bool {
    bits <= THRESHOLD_MAX_BITS
}

/// Clamps a requested scale into the inspector's declared range.
pub open spec fn spec_clamp_scale(requested: u32) -> u8 {
    if requested < SCALE_MIN as u32 {
        SCALE_MIN
    } else if requested > SCALE_MAX as u32 {
        SCALE_MAX
    } else {
        requested as u8
    }
}

/// Clamps a requested threshold pattern into the inspector's declared range:
/// any pattern with the sign bit set becomes zero, and any non-negative
/// pattern above twenty becomes twenty.
pub open spec fn spec_clamp_threshold(bits: u32) -> u32 {
    if bits >= 0x8000_0000 {
        ZERO_BITS
    } else if bits > THRESHOLD_MAX_BITS {
        THRESHOLD_MAX_BITS
    } else {
        bits
    }
}

/// The inspector's clamp for the integer scale.
pub fn clamp_scale(requested: u32) -> (r: u8)
    ensures
        r == spec_clamp_scale(requested),
        SCALE_MIN <= r <= SCALE_MAX,
{
    if requested < SCALE_MIN as u32 {
        SCALE_MIN
    } else if requested > SCALE_MAX as u32 {
        SCALE_MAX
    } else {
        requested as u8
    }
}

/// The inspector's clamp for a threshold pattern.
pub fn clamp_threshold(bits: u32) -> (r: u32)
    ensures
        r == spec_clamp_threshold(bits),
        threshold_in_range(r),
{
    if bits >= 0x8000_0000 {
        ZERO_BITS
    } else if bits > THRESHOLD_MAX_BITS {
        THRESHOLD_MAX_BITS
    } else {
        bits
    }
}

impl TunableParameters {
    /// The store's invariant: every numeric field lies in the range the
    /// inspector declares. The inspector's clamping enforces it; the store
    /// itself never re-validates.
    pub open spec fn valid(self) -> bool {
        &&& SCALE_MIN <= self.scale <= SCALE_MAX
        &&& threshold_in_range(self.depth_threshold)
        &&& threshold_in_range(self.depth_normal_threshold)
        &&& threshold_in_range(self.depth_normal_threshold_scale)
        &&& threshold_in_range(self.normal_threshold)
    }

    /// The startup values: scale two, thresholds one fifth, one half, seven
    /// and two fifths, and an opaque black color.
    pub open spec fn spec_default() -> TunableParameters {
        TunableParameters {
            scale: DEFAULT_SCALE,
            depth_threshold: DEFAULT_DEPTH_THRESHOLD_BITS,
            depth_normal_threshold: DEFAULT_DEPTH_NORMAL_THRESHOLD_BITS,
            depth_normal_threshold_scale: DEFAULT_DEPTH_NORMAL_THRESHOLD_SCALE_BITS,
            normal_threshold: DEFAULT_NORMAL_THRESHOLD_BITS,
            color: ColorRgba::spec_black(),
        }
    }

    /// Sets the scale along the inspector path: the request is clamped into
    /// the declared range before it ever reaches the store.
    pub fn ui_set_scale(&mut self, requested: u32)
        ensures
            final(self).scale == spec_clamp_scale(requested),
            *final(self) == (TunableParameters { scale: spec_clamp_scale(requested), ..*old(self) }),
            old(self).valid() ==> final(self).valid(),
    {
        self.scale = clamp_scale(requested);
    }

    /// Sets the depth threshold along the inspector path, clamped.
    pub fn ui_set_depth_threshold(&mut self, bits: u32)
        ensures
            *final(self) == (TunableParameters {
                depth_threshold: spec_clamp_threshold(bits),
                ..*old(self)
            }),
            old(self).valid() ==> final(self).valid(),
    {
        self.depth_threshold = clamp_threshold(bits);
    }

    /// Sets the depth-normal threshold along the inspector path, clamped.
    pub fn ui_set_depth_normal_threshold(&mut self, bits: u32)
        ensures
            *final(self) == (TunableParameters {
                depth_normal_threshold: spec_clamp_threshold(bits),
                ..*old(self)
            }),
            old(self).valid() ==> final(self).valid(),
    {
        self.depth_normal_threshold = clamp_threshold(bits);
    }

    /// Sets the depth-normal threshold scale along the inspector path,
    /// clamped.
    pub fn ui_set_depth_normal_threshold_scale(&mut self, bits: u32)
        ensures
            *final(self) == (TunableParameters {
                depth_normal_threshold_scale: spec_clamp_threshold(bits),
                ..*old(self)
            }),
            old(self).valid() ==> final(self).valid(),
    {
        self.depth_normal_threshold_scale = clamp_threshold(bits);
    }

    /// Sets the normal threshold along the inspector path, clamped.
    pub fn ui_set_normal_threshold(&mut self, bits: u32)
        ensures
            *final(self) == (TunableParameters {
                normal_threshold: spec_clamp_threshold(bits),
                ..*old(self)
            }),
            old(self).valid() ==> final(self).valid(),
    {
        self.normal_threshold = clamp_threshold(bits);
    }

    /// Sets the outline color; the inspector declares no range for it.
    pub fn ui_set_color(&mut self, color: ColorRgba)
        ensures
            *final(self) == (TunableParameters { color: color, ..*old(self) }),
            old(self).valid() ==> final(self).valid(),
    {
        self.color = color;
    }
}

impl Default for TunableParameters {
    /// Builds the startup snapshot, which satisfies the store's invariant.
    fn default() -> (s: Self)
        ensures
            s == TunableParameters::spec_default(),
            s.valid(),
    {
        TunableParameters {
            scale: DEFAULT_SCALE,
            depth_threshold: DEFAULT_DEPTH_THRESHOLD_BITS,
            depth_normal_threshold: DEFAULT_DEPTH_NORMAL_THRESHOLD_BITS,
            depth_normal_threshold_scale: DEFAULT_DEPTH_NORMAL_THRESHOLD_SCALE_BITS,
            normal_threshold: DEFAULT_NORMAL_THRESHOLD_BITS,
            color: ColorRgba::black(),
        }
    }
}

} // verus!
