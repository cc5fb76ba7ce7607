//! The individual pixel-pipeline stages, each a thin trusted wrapper over
//! the image-processing crates. Every stage is a pure function of its
//! arguments; the wrappers name each stage's pixel output so the verified
//! pipeline can speak of it exactly.

use vstd::prelude::*;
use crate::frame::Frame;
use crate::config::FilterKind;

verus! {

/// Numeric code of a resampling filter, used to state which filter a
/// resize stage ran with.
pub open spec fn filter_code(f: FilterKind) -> nat {
    match f {
        FilterKind::Nearest => 0,
        FilterKind::Triangle => 1,
        FilterKind::CatmullRom => 2,
        FilterKind::Gaussian => 3,
        FilterKind::Lanczos3 => 4,
    }
}

/// The pixel bytes of resampling a buffer of the given geometry to new
/// dimensions with the coded filter.
pub uninterp spec fn resized_of(
    data: Seq<u8>,
    channels: nat,
    width: nat,
    height: nat,
    new_width: nat,
    new_height: nat,
    filter: nat,
) -> Seq<u8>;

/// The pixel bytes of converting a three-channel color buffer of the given
/// dimensions to one-channel luminance.
pub uninterp spec fn gray_of(data: Seq<u8>, width: nat, height: nat) -> Seq<u8>;

/// The pixel bytes of a Gaussian blur of the given sigma over a buffer of
/// the given geometry.
pub uninterp spec fn blurred_of(
    data: Seq<u8>,
    channels: nat,
    width: nat,
    height: nat,
    sigma: nat,
) -> Seq<u8>;

/// The pixel bytes of Canny edge detection with the given hysteresis
/// thresholds over a one-channel buffer of the given dimensions.
pub uninterp spec fn canny_of(
    data: Seq<u8>,
    width: nat,
    height: nat,
    low: nat,
    high: nat,
) -> Seq<u8>;

/// The pixel bytes of an edge-preserving bilateral filter over a
/// one-channel buffer of the given dimensions.
pub uninterp spec fn bilateral_of(
    data: Seq<u8>,
    width: nat,
    height: nat,
    window: nat,
    sigma_color: nat,
    sigma_spatial: nat,
) -> Seq<u8>;

/// Relies on image::imageops::resize: the output buffer has exactly the
/// requested dimensions and the same channel layout, and its pixels depend
/// only on the input pixels, the geometries and the filter.
#[verifier::external_body]
pub(crate) fn resize_rgb_call(f: &Frame, new_width: u32, new_height: u32, filter: FilterKind) -> (r: Frame)
    requires
        f.wf(),
        f.channels == 3,
        f.width >= 1,
        f.height >= 1,
        new_width >= 1,
        new_height >= 1,
    ensures
        r.wf(),
        r.width == new_width,
        r.height == new_height,
        r.channels == 3,
        r.data@ == resized_of(
            f.data@, 3, f.width as nat, f.height as nat,
            new_width as nat, new_height as nat, filter_code(filter)),
{
    let img: image::RgbImage =
        image::ImageBuffer::from_raw(f.width, f.height, f.data.clone())
            .expect("a well-formed frame holds one byte per channel per pixel");
    let ft = match filter {
        FilterKind::Nearest => image::imageops::FilterType::Nearest,
        FilterKind::Triangle => image::imageops::FilterType::Triangle,
        FilterKind::CatmullRom => image::imageops::FilterType::CatmullRom,
        FilterKind::Gaussian => image::imageops::FilterType::Gaussian,
        FilterKind::Lanczos3 => image::imageops::FilterType::Lanczos3,
    };
    let out = image::imageops::resize(&img, new_width, new_height, ft);
    Frame { width: new_width, height: new_height, channels: 3, data: out.into_raw() }
}

/// Relies on image::imageops::resize: the output buffer has exactly the
/// requested dimensions and the same channel layout, and its pixels depend
/// only on the input pixels, the geometries and the filter.
#[verifier::external_body]
pub(crate) fn resize_gray_call(f: &Frame, new_width: u32, new_height: u32, filter: FilterKind) -> (r: Frame)
    requires
        f.wf(),
        f.channels == 1,
        f.width >= 1,
        f.height >= 1,
        new_width >= 1,
        new_height >= 1,
    ensures
        r.wf(),
        r.width == new_width,
        r.height == new_height,
        r.channels == 1,
        r.data@ == resized_of(
            f.data@, 1, f.width as nat, f.height as nat,
            new_width as nat, new_height as nat, filter_code(filter)),
{
    let img: image::GrayImage =
        image::ImageBuffer::from_raw(f.width, f.height, f.data.clone())
            .expect("a well-formed frame holds one byte per channel per pixel");
    let ft = match filter {
        FilterKind::Nearest => image::imageops::FilterType::Nearest,
        FilterKind::Triangle => image::imageops::FilterType::Triangle,
        FilterKind::CatmullRom => image::imageops::FilterType::CatmullRom,
        FilterKind::Gaussian => image::imageops::FilterType::Gaussian,
        FilterKind::Lanczos3 => image::imageops::FilterType::Lanczos3,
    };
    let out = image::imageops::resize(&img, new_width, new_height, ft);
    Frame { width: new_width, height: new_height, channels: 1, data: out.into_raw() }
}

/// Relies on image::imageops::grayscale: the output keeps the input
/// dimensions, holds one luminance channel, and depends only on the input
/// pixels.
#[verifier::external_body]
pub(crate) fn grayscale_call(f: &Frame) -> (r: Frame)
    requires
        f.wf(),
        f.channels == 3,
    ensures
        r.wf(),
        r.width == f.width,
        r.height == f.height,
        r.channels == 1,
        r.data@ == gray_of(f.data@, f.width as nat, f.height as nat),
{
    let img: image::RgbImage =
        image::ImageBuffer::from_raw(f.width, f.height, f.data.clone())
            .expect("a well-formed frame holds one byte per channel per pixel");
    let out = image::imageops::grayscale(&img);
    Frame { width: f.width, height: f.height, channels: 1, data: out.into_raw() }
}

/// Relies on imageproc::filter::gaussian_blur_f32: the output keeps the
/// input geometry and depends only on the input pixels and the sigma; the
/// call panics on a sigma of zero, which the precondition rules out.
#[verifier::external_body]
pub(crate) fn blur_gray_call(f: &Frame, sigma: u16) -> (r: Frame)
    requires
        f.wf(),
        f.channels == 1,
        sigma >= 1,
    ensures
        r.wf(),
        r.width == f.width,
        r.height == f.height,
        r.channels == 1,
        r.data@ == blurred_of(f.data@, 1, f.width as nat, f.height as nat, sigma as nat),
{
    let img: image::GrayImage =
        image::ImageBuffer::from_raw(f.width, f.height, f.data.clone())
            .expect("a well-formed frame holds one byte per channel per pixel");
    let out = imageproc::filter::gaussian_blur_f32(&img, sigma.into());
    Frame { width: f.width, height: f.height, channels: 1, data: out.into_raw() }
}

/// Relies on imageproc::filter::gaussian_blur_f32: the output keeps the
/// input geometry and depends only on the input pixels and the sigma; the
/// call panics on a sigma of zero, which the precondition rules out.
#[verifier::external_body]
pub(crate) fn blur_rgb_call(f: &Frame, sigma: u16) -> (r: Frame)
    requires
        f.wf(),
        f.channels == 3,
        sigma >= 1,
    ensures
        r.wf(),
        r.width == f.width,
        r.height == f.height,
        r.channels == 3,
        r.data@ == blurred_of(f.data@, 3, f.width as nat, f.height as nat, sigma as nat),
{
    let img: image::RgbImage =
        image::ImageBuffer::from_raw(f.width, f.height, f.data.clone())
            .expect("a well-formed frame holds one byte per channel per pixel");
    let out = imageproc::filter::gaussian_blur_f32(&img, sigma.into());
    Frame { width: f.width, height: f.height, channels: 3, data: out.into_raw() }
}

/// Relies on imageproc::edges::canny: the output keeps the input
/// dimensions, marks edge pixels 255 and all others 0, and depends only on
/// the input pixels and the two thresholds; the call asserts an ordered
/// threshold pair and indexes past a zero dimension, which the
/// preconditions rule out.
#[verifier::external_body]
pub(crate) fn canny_call(f: &Frame, low: u16, high: u16) -> (r: Frame)
    requires
        f.wf(),
        f.channels == 1,
        f.width >= 1,
        f.height >= 1,
        low <= high,
    ensures
        r.wf(),
        r.width == f.width,
        r.height == f.height,
        r.channels == 1,
        r.data@ == canny_of(f.data@, f.width as nat, f.height as nat, low as nat, high as nat),
        forall|i: int| 0 <= i < r.data@.len() ==> r.data@[i] == 0 || #[trigger] r.data@[i] == 255,
{
    let img: image::GrayImage =
        image::ImageBuffer::from_raw(f.width, f.height, f.data.clone())
            .expect("a well-formed frame holds one byte per channel per pixel");
    let out = imageproc::edges::canny(&img, low.into(), high.into());
    Frame { width: f.width, height: f.height, channels: 1, data: out.into_raw() }
}

/// Relies on imageproc::filter::bilateral_filter: the output keeps the
/// input dimensions and depends only on the input pixels, the window size
/// and the two sigmas; the call takes the maximum over the input pixels,
/// which panics on an empty image, ruled out by the preconditions.
#[verifier::external_body]
pub(crate) fn bilateral_call(f: &Frame, window: u32, sigma_color: u16, sigma_spatial: u16) -> (r: Frame)
    requires
        f.wf(),
        f.channels == 1,
        f.width >= 1,
        f.height >= 1,
        window >= 1,
        sigma_color >= 1,
        sigma_spatial >= 1,
    ensures
        r.wf(),
        r.width == f.width,
        r.height == f.height,
        r.channels == 1,
        r.data@ == bilateral_of(
            f.data@, f.width as nat, f.height as nat,
            window as nat, sigma_color as nat, sigma_spatial as nat),
{
    let img: image::GrayImage =
        image::ImageBuffer::from_raw(f.width, f.height, f.data.clone())
            .expect("a well-formed frame holds one byte per channel per pixel");
    let out = imageproc::filter::bilateral_filter(&img, window, sigma_color.into(), sigma_spatial.into());
    Frame { width: f.width, height: f.height, channels: 1, data: out.into_raw() }
}

} // verus!
