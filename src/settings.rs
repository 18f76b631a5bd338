//! The integer part of a render's configuration, checked before rendering.

use vstd::prelude::*;

verus! {

/// Image size, samples per pixel and bounce budget of a render.
#[derive(Clone, Copy, Debug, PartialEq, Eq, Structural)]
pub struct RenderSettings {
    pub width: usize,
    pub height: usize,
    pub samples_per_pixel: usize,
    pub max_depth: usize,
}

/// Why a configuration was rejected.
#[derive(Clone, Copy, Debug, PartialEq, Eq, Structural)]
pub enum SettingsError {
    ZeroWidth,
    ZeroHeight,
    ZeroSamples,
    TooManyPixels,
}

impl RenderSettings {
    /// Positive sizes and sample count, and a pixel count that fits in `usize`.
    /// A bounce budget of zero is allowed: every ray is then black.
    pub open spec fn wf(&self) -> bool {
        &&& self.width > 0
        &&& self.height > 0
        &&& self.samples_per_pixel > 0
        &&& self.width * self.height <= usize::MAX
    }

    /// Checks a configuration. The first failing condition, in the order
    /// width, height, samples, pixel count, gives the error.
    pub fn new(width: usize, height: usize, samples_per_pixel: usize, max_depth: usize) -> (r:
        Result<RenderSettings, SettingsError>)
        ensures
            width == 0 ==> r == Err::<RenderSettings, SettingsError>(SettingsError::ZeroWidth),
            width > 0 && height == 0 ==> r == Err::<RenderSettings, SettingsError>(
                SettingsError::ZeroHeight,
            ),
            width > 0 && height > 0 && samples_per_pixel == 0 ==> r == Err::<
                RenderSettings,
                SettingsError,
            >(SettingsError::ZeroSamples),
            width > 0 && height > 0 && samples_per_pixel > 0 && width * height > usize::MAX ==> r
                == Err::<RenderSettings, SettingsError>(SettingsError::TooManyPixels),
            r.is_ok() <==> (width > 0 && height > 0 && samples_per_pixel > 0 && width * height
                <= usize::MAX),
            r matches Ok(s) ==> s.wf() && s == (RenderSettings {
                width,
                height,
                samples_per_pixel,
                max_depth,
            }),
    {
        if width == 0 {
            return Err(SettingsError::ZeroWidth);
        }
        if height == 0 {
            return Err(SettingsError::ZeroHeight);
        }
        if samples_per_pixel == 0 {
            return Err(SettingsError::ZeroSamples);
        }
        if width.checked_mul(height).is_none() {
            return Err(SettingsError::TooManyPixels);
        }
        Ok(RenderSettings { width, height, samples_per_pixel, max_depth })
    }

    /// Number of pixels of the image.
    pub fn pixel_count(&self) -> (r: usize)
        requires
            self.wf(),
        ensures
            r == self.width * self.height,
    {
        self.width * self.height
    }
}

} // verus!
