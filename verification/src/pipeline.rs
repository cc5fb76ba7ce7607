//! The frame pipelines: fixed and toggled compositions of the pixel
//! stages, with the exact pixel output of each pinned to the named stage
//! results.

use vstd::prelude::*;
use crate::config::ImageProcessingConfiguration;
use crate::frame::Frame;
use crate::frame::flat_idx;
use crate::stages::bilateral_of;
use crate::stages::blurred_of;
use crate::stages::canny_of;
use crate::stages::filter_code;
use crate::stages::gray_of;
use crate::stages::resized_of;
use crate::stages::bilateral_call;
use crate::stages::blur_gray_call;
use crate::stages::blur_rgb_call;
use crate::stages::canny_call;
use crate::stages::grayscale_call;
use crate::stages::resize_gray_call;
use crate::stages::resize_rgb_call;

verus! {

use vstd::arithmetic::div_mod::lemma_div_non_zero;

/// Width after the downscale stage.
pub open spec fn scaled_width(cfg: ImageProcessingConfiguration, width: u32) -> int {
    width as int / cfg.scale as int
}

/// Height after the downscale stage.
pub open spec fn scaled_height(cfg: ImageProcessingConfiguration, height: u32) -> int {
    height as int / cfg.scale as int
}

/// The pixel bytes of the downscaled grayscale image a color frame is
/// reduced to: either grayscale then resize, or resize then grayscale,
/// as configured.
pub open spec fn scaled_gray_pixels(cfg: ImageProcessingConfiguration, f: Frame) -> Seq<u8> {
    let w = f.width as nat;
    let h = f.height as nat;
    let nw = scaled_width(cfg, f.width) as nat;
    let nh = scaled_height(cfg, f.height) as nat;
    if cfg.gray_before_scale {
        resized_of(gray_of(f.data@, w, h), 1, w, h, nw, nh, filter_code(cfg.scale_filter))
    } else {
        gray_of(resized_of(f.data@, 3, w, h, nw, nh, filter_code(cfg.scale_filter)), nw, nh)
    }
}

/// The pixel bytes the fixed pipeline produces for a color frame: the
/// downscaled grayscale image, then a Gaussian blur and Canny edge
/// detection on it.
pub open spec fn call_pixels(cfg: ImageProcessingConfiguration, f: Frame) -> Seq<u8> {
    let nw = scaled_width(cfg, f.width) as nat;
    let nh = scaled_height(cfg, f.height) as nat;
    canny_of(
        blurred_of(scaled_gray_pixels(cfg, f), 1, nw, nh, cfg.blur_sigma as nat),
        nw, nh, cfg.canny_low as nat, cfg.canny_high as nat)
}

/// The pixel bytes the toggled pipeline produces for a color frame: an
/// optional Gaussian blur, then optionally grayscale conversion followed
/// by Canny edge detection.
pub open spec fn process_pixels(cfg: ImageProcessingConfiguration, f: Frame) -> Seq<u8> {
    let w = f.width as nat;
    let h = f.height as nat;
    let smoothed = if cfg.blur {
        blurred_of(f.data@, 3, w, h, cfg.blur_sigma as nat)
    } else {
        f.data@
    };
    if cfg.canny {
        canny_of(gray_of(smoothed, w, h), w, h, cfg.canny_low as nat, cfg.canny_high as nat)
    } else {
        smoothed
    }
}

/// The pixel bytes of the edge-refinement chain over a one-channel frame:
/// Gaussian blur, bilateral filter, then Canny edge detection. The final
/// horizontal flip is stated pixel-wise on the result.
pub open spec fn refined_edges(
    f: Frame,
    blur_sigma: u16,
    window: u32,
    sigma_color: u16,
    sigma_spatial: u16,
    low: u16,
    high: u16,
) -> Seq<u8> {
    let w = f.width as nat;
    let h = f.height as nat;
    canny_of(
        bilateral_of(
            blurred_of(f.data@, 1, w, h, blur_sigma as nat),
            w, h, window as nat, sigma_color as nat, sigma_spatial as nat),
        w, h, low as nat, high as nat)
}

impl ImageProcessingConfiguration {
    /// Reduces a color frame to its downscaled grayscale image, converting
    /// before or after scaling as configured.
    pub fn scaled_grayscale(&self, image: Frame) -> (r: Frame)
        requires
            self.wf(),
            image.wf(),
            image.channels == 3,
            image.width >= self.scale,
            image.height >= self.scale,
        ensures
            r.wf(),
            r.channels == 1,
            r.width == scaled_width(*self, image.width),
            r.height == scaled_height(*self, image.height),
            r.width >= 1,
            r.height >= 1,
            r.data@ == scaled_gray_pixels(*self, image),
    {
        proof {
            lemma_div_non_zero(image.width as int, self.scale as int);
            lemma_div_non_zero(image.height as int, self.scale as int);
        }
        let nw = image.width / self.scale;
        let nh = image.height / self.scale;
        if self.gray_before_scale {
            let g = grayscale_call(&image);
            resize_gray_call(&g, nw, nh, self.scale_filter)
        } else {
            let s = resize_rgb_call(&image, nw, nh, self.scale_filter);
            grayscale_call(&s)
        }
    }

    /// Runs the fixed pipeline on a color frame: scale down by the
    /// configured divisor, convert to grayscale (before or after scaling,
    /// as configured), blur, and detect edges. The result is the scaled
    /// one-channel edge image.
    pub fn call(&self, image: Frame) -> (r: Frame)
        requires
            self.wf(),
            image.wf(),
            image.channels == 3,
            image.width >= self.scale,
            image.height >= self.scale,
        ensures
            r.wf(),
            r.channels == 1,
            r.width == scaled_width(*self, image.width),
            r.height == scaled_height(*self, image.height),
            r.data@ == call_pixels(*self, image),
    {
        let scaled_gray = self.scaled_grayscale(image);
        let blurred = blur_gray_call(&scaled_gray, self.blur_sigma);
        canny_call(&blurred, self.canny_low, self.canny_high)
    }

    /// Runs the toggled pipeline on a color frame: an optional blur, then
    /// optional edge detection on the grayscale conversion. Without edge
    /// detection the frame stays three-channel; with it the result is the
    /// one-channel edge image.
    pub fn process(&self, image: Frame) -> (r: Frame)
        requires
            self.wf(),
            image.wf(),
            image.channels == 3,
            image.width >= 1,
            image.height >= 1,
        ensures
            r.wf(),
            r.width == image.width,
            r.height == image.height,
            r.channels == (if self.canny { 1u32 } else { 3u32 }),
            r.data@ == process_pixels(*self, image),
    {
        let smoothed = if self.blur {
            blur_rgb_call(&image, self.blur_sigma)
        } else {
            image
        };
        if self.canny {
            let g = grayscale_call(&smoothed);
            canny_call(&g, self.canny_low, self.canny_high)
        } else {
            smoothed
        }
    }
}

/// Runs the edge-refinement chain on a one-channel frame: Gaussian blur,
/// bilateral filter, Canny edge detection, then a horizontal flip of the
/// edge image.
pub fn refine_frame(
    image: Frame,
    blur_sigma: u16,
    window: u32,
    sigma_color: u16,
    sigma_spatial: u16,
    low: u16,
    high: u16,
) -> (r: Frame)
    requires
        image.wf(),
        image.channels == 1,
        image.width >= 1,
        image.height >= 1,
        blur_sigma >= 1,
        window >= 1,
        sigma_color >= 1,
        sigma_spatial >= 1,
        low <= high,
    ensures
        r.wf(),
        r.channels == 1,
        r.width == image.width,
        r.height == image.height,
        forall|x: int, y: int|
            0 <= x < image.width && 0 <= y < image.height
                ==> #[trigger] r.at(x, y, 0)
                    == refined_edges(image, blur_sigma, window, sigma_color, sigma_spatial,
                        low, high)[flat_idx(image.width as int, 1, image.width as int - 1 - x, y, 0)],
{
    let blurred = blur_gray_call(&image, blur_sigma);
    let smoothed = bilateral_call(&blurred, window, sigma_color, sigma_spatial);
    let edges = canny_call(&smoothed, low, high);
    Frame::flip_horizontal(&edges)
}

/// Law: the edge-detection pipeline is deterministic. With ordered
/// thresholds, an identical input frame under an identical configuration
/// yields a byte-identical output frame.
pub proof fn lemma_call_deterministic(
    c1: ImageProcessingConfiguration,
    c2: ImageProcessingConfiguration,
    f1: Frame,
    f2: Frame,
)
    requires
        c1.canny_low <= c1.canny_high,
        c1 == c2,
        f1 == f2,
    ensures
        call_pixels(c1, f1) == call_pixels(c2, f2),
{
}

/// Law: converting to grayscale before scaling and scaling before
/// converting produce outputs of identical final dimensions for the same
/// scale factor.
pub proof fn lemma_stage_order_preserves_dims(
    c1: ImageProcessingConfiguration,
    c2: ImageProcessingConfiguration,
    width: u32,
    height: u32,
)
    requires
        c1.scale == c2.scale,
        c1.scale >= 1,
    ensures
        scaled_width(c1, width) == scaled_width(c2, width),
        scaled_height(c1, height) == scaled_height(c2, height),
{
}

} // verus!
