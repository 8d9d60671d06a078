//! The per-camera parameter block of the effect.
use vstd::prelude::*;

verus! {

/// The fixed-point unit: a value `v` stands for `v / ONE`.
pub const ONE: u32 = 1000;

/// A colour with red, green, blue and alpha channels, in thousandths.
#[derive(Clone, Copy, Debug, PartialEq, Eq, Structural)]
pub struct Rgba {
    pub r: u32,
    pub g: u32,
    pub b: u32,
    pub a: u32,
}

impl Rgba {
    pub fn new(r: u32, g: u32, b: u32, a: u32) -> (c: Rgba)
        ensures
            c == (Rgba { r, g, b, a }),
    {
        Rgba { r, g, b, a }
    }
}

/// Thresholds, stroke and banding of one camera's effect.
///
/// All thresholds are in thousandths, `stroke_size` is in texels and
/// `colour_banding` is the number of bands.
#[derive(Clone, Copy, Debug, PartialEq, Eq, Structural)]
pub struct SimpletoonSettings {
    /// Base sensitivity of the depth edge test.
    pub depth_threshold: u32,
    /// How much the depth threshold grows with the fragment's depth.
    pub depth_threshold_depth_mul: u32,
    /// Obliqueness above which the depth threshold is relaxed.
    pub depth_normal_threshold: u32,
    /// How strongly obliqueness past `depth_normal_threshold` relaxes it.
    pub depth_normal_threshold_mul: u32,
    /// Sensitivity of the normal edge test.
    pub normal_threshold: u32,
    /// Sensitivity of the luminance edge test.
    pub colour_threshold: u32,
    /// Distance of the neighbour samples, in texels.
    pub stroke_size: u32,
    /// Number of intensity bands of the toon quantization.
    pub colour_banding: u32,
    /// Colour written on outline pixels.
    pub stroke_colour: Rgba,
}

/// Why a settings block is refused.
#[derive(Clone, Copy, Debug, PartialEq, Eq, Structural)]
pub enum SettingsError {
    /// `colour_banding` is below one band.
    BandingBelowOne,
}

impl SimpletoonSettings {
    /// The settings are usable: at least one colour band. (Thresholds are
    /// non-negative by their type.)
    pub open spec fn wf(&self) -> bool {
        self.colour_banding >= 1
    }

    /// The default values of the effect.
    pub open spec fn spec_default() -> SimpletoonSettings {
        SimpletoonSettings {
            depth_threshold: 1000,
            depth_threshold_depth_mul: 1000,
            depth_normal_threshold: 400,
            depth_normal_threshold_mul: 30000,
            normal_threshold: 400,
            colour_threshold: 200,
            stroke_size: 1,
            colour_banding: 5,
            stroke_colour: Rgba { r: 100, g: 100, b: 100, a: 1000 },
        }
    }

    /// Accepts the settings when they are usable, and says why otherwise.
    pub fn validate(&self) -> (r: Result<(), SettingsError>)
        ensures
            r is Ok <==> self.wf(),
            r is Err ==> r == Err::<(), SettingsError>(SettingsError::BandingBelowOne),
    {
        if self.colour_banding >= 1 {
            Ok(())
        } else {
            Err(SettingsError::BandingBelowOne)
        }
    }
}

impl Default for SimpletoonSettings {
    fn default() -> (s: SimpletoonSettings)
        ensures
            s == SimpletoonSettings::spec_default(),
    {
        SimpletoonSettings {
            depth_threshold: 1000,
            depth_threshold_depth_mul: 1000,
            depth_normal_threshold: 400,
            depth_normal_threshold_mul: 30000,
            normal_threshold: 400,
            colour_threshold: 200,
            stroke_size: 1,
            colour_banding: 5,
            stroke_colour: Rgba::new(100, 100, 100, 1000),
        }
    }
}

} // verus!
