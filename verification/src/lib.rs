//! Dual-camera pixel-snapping synchronization.
//!
//! A scene is rendered at a fixed low resolution and upscaled onto the
//! display, giving a crisp pixel-art look while the tracked subject
//! moves smoothly with sub-pixel precision.  The library keeps three
//! pieces of state in step, once per tick:
//!
//! - the *high-res camera*, which follows the subject continuously;
//! - the *canvas*, the display quad showing the upscaled low-resolution
//!   image, which mirrors the high-res camera but only snaps once the
//!   accumulated lag on an axis reaches one logical pixel;
//! - the *low-res camera*, which renders the low-resolution buffer and
//!   only ever advances by whole logical pixels, so the buffer stays
//!   pixel-grid aligned.
//!
//! Positions are fixed-point integers in sub-pixel units
//! ([`position::SUBPIXELS_PER_UNIT`] per world unit), so every step of
//! the per-tick arithmetic is exact and verified: the canvas lag stays
//! below one logical pixel, the low-res camera stays on the whole-unit
//! grid, and its integer steps never overshoot the target.

pub mod config;
pub mod input;
pub mod position;
pub mod sync;

pub use config::{ConfigError, PixelCameraConfig, PixelScaleFactor};
pub use input::DirectionalInput;
pub use position::{Position, POSITION_LIMIT, SUBPIXELS_PER_UNIT};
pub use sync::{CameraSyncState, Canvas, HighResCamera, LowResCamera};
