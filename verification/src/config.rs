//! Render configuration: deriving the pixel grid from the requested
//! aspect ratio, and rejecting degenerate settings before any work runs.
//!
//! The caller asks for an image width and an aspect ratio, given as the
//! width : height pair of a rational; the image height follows from them
//! and is never left below one pixel.

use vstd::prelude::*;

verus! {

/// Why a render configuration is rejected.
#[derive(Clone, Copy, Debug, PartialEq, Eq)]
pub enum ConfigError {
    /// The image would have no columns.
    ZeroImageWidth,
    /// The aspect ratio's width term is zero.
    ZeroAspectWidth,
    /// The aspect ratio's height term is zero.
    ZeroAspectHeight,
    /// No samples would be taken per pixel.
    ZeroSamplesPerPixel,
}

/// The image height that a width and an aspect ratio ask for:
/// `width * aspect_h / aspect_w` rounded down, saturated into
/// `[1, u32::MAX]` so the image keeps at least one row.
pub open spec fn spec_derived_height(image_width: u32, aspect_w: u32, aspect_h: u32) -> int {
    let ideal = (image_width * aspect_h) / (aspect_w as int);
    if ideal < 1 {
        1
    } else if ideal > u32::MAX {
        u32::MAX as int
    } else {
        ideal
    }
}

/// Derive the image height from the width and the aspect ratio,
/// clamping to at least one row.
pub fn derived_image_height(image_width: u32, aspect_w: u32, aspect_h: u32) -> (h: u32)
    requires
        aspect_w >= 1,
    ensures
        h == spec_derived_height(image_width, aspect_w, aspect_h),
        h >= 1,
{
    proof {
        assert((image_width as int) * (aspect_h as int) <= (u32::MAX as int) * (
        u32::MAX as int)) by (nonlinear_arith)
            requires
                image_width as int <= u32::MAX as int,
                aspect_h as int <= u32::MAX as int,
        ;
    }
    let scaled: u64 = (image_width as u64) * (aspect_h as u64);
    let ideal: u64 = scaled / (aspect_w as u64);
    if ideal < 1 {
        1
    } else if ideal > u32::MAX as u64 {
        u32::MAX
    } else {
        ideal as u32
    }
}

/// Accept a configuration only when every count in it is positive:
/// a zero image width, a zero term of the aspect ratio, or a zero
/// sample count is reported as the first such fault, in that order.
pub fn validate_config(image_width: u32, aspect_w: u32, aspect_h: u32, samples_per_pixel: u16)
    -> (r: Result<(), ConfigError>)
    ensures
        r is Ok <==> image_width > 0 && aspect_w > 0 && aspect_h > 0 && samples_per_pixel > 0,
        r == Err::<(), ConfigError>(ConfigError::ZeroImageWidth) <==> image_width == 0,
        r == Err::<(), ConfigError>(ConfigError::ZeroAspectWidth) <==> image_width > 0 && aspect_w
            == 0,
        r == Err::<(), ConfigError>(ConfigError::ZeroAspectHeight) <==> image_width > 0 && aspect_w
            > 0 && aspect_h == 0,
        r == Err::<(), ConfigError>(ConfigError::ZeroSamplesPerPixel) <==> image_width > 0
            && aspect_w > 0 && aspect_h > 0 && samples_per_pixel == 0,
{
    if image_width == 0 {
        Err(ConfigError::ZeroImageWidth)
    } else if aspect_w == 0 {
        Err(ConfigError::ZeroAspectWidth)
    } else if aspect_h == 0 {
        Err(ConfigError::ZeroAspectHeight)
    } else if samples_per_pixel == 0 {
        Err(ConfigError::ZeroSamplesPerPixel)
    } else {
        Ok(())
    }
}

} // verus!
