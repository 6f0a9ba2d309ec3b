//! Startup configuration: the pixel-scale factor, the screen size, and
//! the derived size of the offscreen render target.

use vstd::prelude::*;
use crate::position::SUBPIXELS_PER_UNIT;

verus! {

/// Why a configuration was rejected: each dimension of the
/// configuration surface must be a positive integer.
#[derive(Clone, Copy, Debug, PartialEq, Eq, Structural)]
pub enum ConfigError {
    ZeroPixelScaleFactor,
    ZeroScreenWidth,
    ZeroScreenHeight,
}

/// The integer upscaling ratio between the low-resolution buffer and the
/// display: one logical pixel covers this many display pixels on each
/// axis.  Fixed for the whole session; validated to be at least one at
/// construction, so per-tick arithmetic never divides by zero.
#[derive(Clone, Copy, Debug, PartialEq, Eq, Structural)]
pub struct PixelScaleFactor {
    factor: u32,
}

impl PixelScaleFactor {
    /// The ratio itself.
    pub closed spec fn spec_factor(self) -> int {
        self.factor as int
    }

    /// A scale factor is valid when it is at least one.
    pub open spec fn valid(self) -> bool {
        self.spec_factor() >= 1
    }

    /// The size of one logical pixel in sub-pixel units: the snap
    /// threshold of the synchronizer.
    pub open spec fn spec_threshold(self) -> int {
        self.spec_factor() * SUBPIXELS_PER_UNIT
    }

    /// Accepts exactly the positive ratios.
    pub fn new(factor: u32) -> (r: Option<PixelScaleFactor>)
        ensures
            r is Some <==> factor >= 1,
            r is Some ==> r->0.spec_factor() == factor && r->0.valid(),
    {
        if factor >= 1 {
            Some(PixelScaleFactor { factor })
        } else {
            None
        }
    }

    pub fn factor(&self) -> (f: u32)
        ensures
            f == self.spec_factor(),
    {
        self.factor
    }

    /// The snap threshold in sub-pixel units.
    pub fn threshold(&self) -> (t: i64)
        ensures
            t == self.spec_threshold(),
    {
        (self.factor as i64) * SUBPIXELS_PER_UNIT
    }
}

/// The whole configuration surface, fixed at startup: pixel-scale
/// factor and screen size, all positive.
#[derive(Clone, Copy, Debug, PartialEq, Eq, Structural)]
pub struct PixelCameraConfig {
    pixel_scale_factor: PixelScaleFactor,
    screen_width: u32,
    screen_height: u32,
}

impl PixelCameraConfig {
    pub closed spec fn spec_scale(self) -> PixelScaleFactor {
        self.pixel_scale_factor
    }

    pub closed spec fn spec_screen_width(self) -> int {
        self.screen_width as int
    }

    pub closed spec fn spec_screen_height(self) -> int {
        self.screen_height as int
    }

    /// Established by the constructor and never changed afterwards.
    pub open spec fn valid(self) -> bool {
        &&& self.spec_scale().valid()
        &&& self.spec_screen_width() >= 1
        &&& self.spec_screen_height() >= 1
    }

    /// Accepts exactly the configurations whose three dimensions are
    /// positive, reporting the first zero dimension otherwise (checked
    /// in the order scale factor, width, height).
    pub fn new(pixel_scale_factor: u32, screen_width: u32, screen_height: u32) -> (r: Result<
        PixelCameraConfig,
        ConfigError,
    >)
        ensures
            r is Ok <==> pixel_scale_factor >= 1 && screen_width >= 1 && screen_height >= 1,
            r is Ok ==> {
                &&& r->Ok_0.spec_scale().spec_factor() == pixel_scale_factor
                &&& r->Ok_0.spec_screen_width() == screen_width
                &&& r->Ok_0.spec_screen_height() == screen_height
                &&& r->Ok_0.valid()
            },
            r == Err::<PixelCameraConfig, ConfigError>(ConfigError::ZeroPixelScaleFactor)
                <==> pixel_scale_factor == 0,
            r == Err::<PixelCameraConfig, ConfigError>(ConfigError::ZeroScreenWidth)
                <==> pixel_scale_factor >= 1 && screen_width == 0,
            r == Err::<PixelCameraConfig, ConfigError>(ConfigError::ZeroScreenHeight)
                <==> pixel_scale_factor >= 1 && screen_width >= 1 && screen_height == 0,
    {
        if pixel_scale_factor == 0 {
            Err(ConfigError::ZeroPixelScaleFactor)
        } else if screen_width == 0 {
            Err(ConfigError::ZeroScreenWidth)
        } else if screen_height == 0 {
            Err(ConfigError::ZeroScreenHeight)
        } else {
            Ok(
                PixelCameraConfig {
                    pixel_scale_factor: PixelScaleFactor { factor: pixel_scale_factor },
                    screen_width,
                    screen_height,
                },
            )
        }
    }

    pub fn pixel_scale_factor(&self) -> (s: PixelScaleFactor)
        ensures
            s == self.spec_scale(),
    {
        self.pixel_scale_factor
    }

    pub fn screen_width(&self) -> (w: u32)
        ensures
            w == self.spec_screen_width(),
    {
        self.screen_width
    }

    pub fn screen_height(&self) -> (h: u32)
        ensures
            h == self.spec_screen_height(),
    {
        self.screen_height
    }

    /// Width of the offscreen render target: the visible width in
    /// logical pixels, plus two padding pixels that absorb the at most
    /// one logical pixel of overscan on each side introduced by
    /// sub-pixel camera drift.
    pub fn render_target_width(&self) -> (w: u32)
        requires
            self.valid(),
            self.spec_screen_width() / self.spec_scale().spec_factor() + 2 <= u32::MAX,
        ensures
            w == self.spec_screen_width() / self.spec_scale().spec_factor() + 2,
    {
        let logical: u64 = (self.screen_width as u64) / (self.pixel_scale_factor.factor as u64);
        (logical + 2) as u32
    }

    /// Height of the offscreen render target; see `render_target_width`.
    pub fn render_target_height(&self) -> (h: u32)
        requires
            self.valid(),
            self.spec_screen_height() / self.spec_scale().spec_factor() + 2 <= u32::MAX,
        ensures
            h == self.spec_screen_height() / self.spec_scale().spec_factor() + 2,
    {
        let logical: u64 = (self.screen_height as u64) / (self.pixel_scale_factor.factor as u64);
        (logical + 2) as u32
    }
}

} // verus!
