//! The filter configuration shared between the control surface and the
//! frame pipeline: a small value record, cloned on read and replaced whole
//! on write.

use vstd::prelude::*;

verus! {

/// Which resampling filter a resize stage uses.
#[derive(Clone, Copy, Debug, PartialEq, Eq, Structural)]
pub enum FilterKind {
    Nearest,
    Triangle,
    CatmullRom,
    Gaussian,
    Lanczos3,
}

/// Clamps a value into an inclusive range, the way a slider bounds its
/// control.
pub open spec fn clamp_spec(v: int, lo: int, hi: int) -> int {
    if v < lo {
        lo
    } else if v > hi {
        hi
    } else {
        v
    }
}

/// The parameter set of the pixel pipeline. Sigmas and thresholds are kept
/// in whole intensity units, the step size of the control sliders.
#[derive(Clone, Copy, Debug, PartialEq, Eq, Structural)]
pub struct ImageProcessingConfiguration {
    /// Convert to grayscale before scaling down instead of after.
    pub gray_before_scale: bool,
    /// Downscale divisor applied to both dimensions.
    pub scale: u32,
    /// Resampling filter used by the scaling stage.
    pub scale_filter: FilterKind,
    /// Whether the optional Gaussian blur stage runs.
    pub blur: bool,
    /// Standard deviation of the Gaussian blur.
    pub blur_sigma: u16,
    /// Whether the optional edge-detection stage runs.
    pub canny: bool,
    /// Low hysteresis threshold of the edge detection.
    pub canny_low: u16,
    /// High hysteresis threshold of the edge detection.
    pub canny_high: u16,
}

impl ImageProcessingConfiguration {
    /// The invariant the sliders maintain: a positive scale divisor, a
    /// positive blur sigma, and an ordered pair of edge thresholds.
    pub open spec fn wf(self) -> bool {
        &&& self.scale >= 1
        &&& self.blur_sigma >= 1
        &&& self.canny_low <= self.canny_high
    }

    /// Builds a configuration from raw control values, clamping each into
    /// its slider range so the result is always well formed: scale into
    /// 1..=8, blur sigma into 1..=20, the high threshold into 1..=30 and
    /// the low threshold into 1..=high.
    pub fn clamped(
        gray_before_scale: bool,
        scale: u32,
        scale_filter: FilterKind,
        blur: bool,
        blur_sigma: u16,
        canny: bool,
        canny_low: u16,
        canny_high: u16,
    ) -> (r: Self)
        ensures
            r.wf(),
            r.gray_before_scale == gray_before_scale,
            r.scale_filter == scale_filter,
            r.blur == blur,
            r.canny == canny,
            r.scale == clamp_spec(scale as int, 1, 8),
            r.blur_sigma == clamp_spec(blur_sigma as int, 1, 20),
            r.canny_high == clamp_spec(canny_high as int, 1, 30),
            r.canny_low == clamp_spec(canny_low as int, 1, r.canny_high as int),
    {
        let scale = clamp_u32(scale, 1, 8);
        let blur_sigma = clamp_u16(blur_sigma, 1, 20);
        let canny_high = clamp_u16(canny_high, 1, 30);
        let canny_low = clamp_u16(canny_low, 1, canny_high);
        Self {
            gray_before_scale,
            scale,
            scale_filter,
            blur,
            blur_sigma,
            canny,
            canny_low,
            canny_high,
        }
    }
}

/// Clamps a `u32` into an inclusive range.
pub fn clamp_u32(v: u32, lo: u32, hi: u32) -> (r: u32)
    requires
        lo <= hi,
    ensures
        r == clamp_spec(v as int, lo as int, hi as int),
{
    if v < lo {
        lo
    } else if v > hi {
        hi
    } else {
        v
    }
}

/// Clamps a `u16` into an inclusive range.
pub fn clamp_u16(v: u16, lo: u16, hi: u16) -> (r: u16)
    requires
        lo <= hi,
    ensures
        r == clamp_spec(v as int, lo as int, hi as int),
{
    if v < lo {
        lo
    } else if v > hi {
        hi
    } else {
        v
    }
}

impl Default for ImageProcessingConfiguration {
    /// The configuration the controls start from: scale by four with
    /// nearest-neighbor sampling, grayscale after scaling, blur sigma of
    /// four, edge thresholds five and fifteen, optional stages off.
    fn default() -> (r: Self)
        ensures
            r.wf(),
            r == (ImageProcessingConfiguration {
                gray_before_scale: false,
                scale: 4u32,
                scale_filter: FilterKind::Nearest,
                blur: false,
                blur_sigma: 4u16,
                canny: false,
                canny_low: 5u16,
                canny_high: 15u16,
            }),
    {
        ImageProcessingConfiguration {
            gray_before_scale: false,
            scale: 4,
            scale_filter: FilterKind::Nearest,
            blur: false,
            blur_sigma: 4,
            canny: false,
            canny_low: 5,
            canny_high: 15,
        }
    }
}

} // verus!
