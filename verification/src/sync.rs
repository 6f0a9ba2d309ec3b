//! The per-tick synchronizer tying the high-res camera, the canvas and
//! the low-res camera together.

use vstd::prelude::*;
use vstd::math::abs;
use vstd::arithmetic::div_mod::{
    lemma_div_is_ordered, lemma_div_is_ordered_by_denominator, lemma_div_nonincreasing,
    lemma_div_pos_is_pos, lemma_fundamental_div_mod, lemma_mod_bound, lemma_mod_multiples_vanish,
};
use vstd::arithmetic::mul::{
    lemma_mul_inequality, lemma_mul_is_distributive_sub, lemma_mul_nonnegative,
    lemma_mul_unary_negation,
};
use crate::config::PixelScaleFactor;
use crate::position::{Position, POSITION_LIMIT, SUBPIXELS_PER_UNIT};

verus! {

/// The camera that follows the tracked subject continuously, with
/// sub-pixel precision and no grid constraint.  It is used for
/// camera-movement bookkeeping, not for composing the final image.
#[derive(Clone, Copy, Debug, PartialEq, Eq, Structural)]
pub struct HighResCamera {
    pub position: Position,
}

/// The camera that renders the scene into the low-resolution buffer.
/// It only ever advances by whole world units, so the buffer stays
/// pixel-grid aligned and free of jitter.
#[derive(Clone, Copy, Debug, PartialEq, Eq, Structural)]
pub struct LowResCamera {
    pub position: Position,
}

/// The display quad showing the low-resolution buffer upscaled by the
/// pixel-scale factor.  Its position mirrors the high-res camera, but
/// only snaps once the accumulated lag on an axis reaches one logical
/// pixel; in between it intentionally lags, which is what lets the
/// low-res camera move in discrete steps while the display still tracks
/// within one logical pixel of the true position.
#[derive(Clone, Copy, Debug, PartialEq, Eq, Structural)]
pub struct Canvas {
    pub position: Position,
}

/// The whole synchronizer state: exactly one camera of each role, the
/// canvas, and the fixed pixel-scale factor.  Holding one field per
/// role makes the "exactly one camera per role" configuration invariant
/// structural rather than a runtime check.
#[derive(Clone, Copy, Debug, PartialEq, Eq, Structural)]
pub struct CameraSyncState {
    pub high_res: HighResCamera,
    pub low_res: LowResCamera,
    pub canvas: Canvas,
    pub pixel_scale_factor: PixelScaleFactor,
}

/// Canvas coordinate on one axis after a tick, given the high-res
/// coordinate and the snap threshold (the size of one logical pixel in
/// sub-pixel units): the canvas snaps to the high-res camera once the
/// lag reaches a whole logical pixel and stays put otherwise.
pub open spec fn spec_canvas_after(high: int, canvas: int, threshold: int) -> int {
    if abs(high - canvas) >= threshold {
        high
    } else {
        canvas
    }
}

/// Whole world units the low-res camera steps on one axis, given the
/// lag `diff` and the snap threshold, both in sub-pixel units.  The
/// quotient is rounded toward zero — floor for a positive lag, ceiling
/// for a negative one — so the camera closes exactly the whole-pixel
/// part of the lag and never passes the target.
pub open spec fn spec_step_units(diff: int, threshold: int) -> int {
    if diff >= threshold {
        diff / threshold  // Euclidean division: floor, as threshold > 0
    } else if diff <= -threshold {
        -((-diff) / threshold)  // -floor(-diff / threshold) == ceil(diff / threshold)
    } else {
        0
    }
}

/// Low-res camera coordinate on one axis after a tick: it advances by a
/// whole number of world units.
pub open spec fn spec_low_res_after(low: int, diff: int, threshold: int) -> int {
    low + spec_step_units(diff, threshold) * SUBPIXELS_PER_UNIT
}

/// Ceiling of `a / b`, for `a >= 0` and `b >= 1`.
pub open spec fn ceil_div(a: int, b: int) -> int {
    (a + b - 1) / b
}

impl CameraSyncState {
    /// All three positions are small enough for a tick's arithmetic to
    /// stay inside `i64`.
    pub open spec fn in_bounds(self) -> bool {
        &&& self.high_res.position.in_bounds()
        &&& self.canvas.position.in_bounds()
        &&& self.low_res.position.in_bounds()
    }

    /// The initial state: every position at the origin.
    pub fn new(pixel_scale_factor: PixelScaleFactor) -> (s: CameraSyncState)
        ensures
            s.pixel_scale_factor == pixel_scale_factor,
            s.high_res.position == (Position { x: 0i64, y: 0i64 }),
            s.canvas.position == (Position { x: 0i64, y: 0i64 }),
            s.low_res.position == (Position { x: 0i64, y: 0i64 }),
            s.in_bounds(),
            s.low_res.position.grid_aligned(),
    {
        CameraSyncState {
            high_res: HighResCamera { position: Position::origin() },
            low_res: LowResCamera { position: Position::origin() },
            canvas: Canvas { position: Position::origin() },
            pixel_scale_factor,
        }
    }

    /// Points the high-res camera at the subject's current continuous
    /// position.  Nothing else moves until the next `synchronize`.
    pub fn track_subject(&mut self, target: Position)
        requires
            target.in_bounds(),
        ensures
            final(self).high_res.position == target,
            final(self).canvas == old(self).canvas,
            final(self).low_res == old(self).low_res,
            final(self).pixel_scale_factor == old(self).pixel_scale_factor,
    {
        self.high_res.position = target;
    }

    /// Moves the high-res camera by a displacement in sub-pixel units:
    /// continuous, frame-rate-independent integration of the tracked
    /// motion, with no snapping.
    pub fn move_high_res(&mut self, dx: i64, dy: i64)
        requires
            -POSITION_LIMIT <= old(self).high_res.position.x + dx <= POSITION_LIMIT,
            -POSITION_LIMIT <= old(self).high_res.position.y + dy <= POSITION_LIMIT,
        ensures
            final(self).high_res.position.x == old(self).high_res.position.x + dx,
            final(self).high_res.position.y == old(self).high_res.position.y + dy,
            final(self).high_res.position.in_bounds(),
            final(self).canvas == old(self).canvas,
            final(self).low_res == old(self).low_res,
            final(self).pixel_scale_factor == old(self).pixel_scale_factor,
    {
        self.high_res.position.x = self.high_res.position.x + dx;
        self.high_res.position.y = self.high_res.position.y + dy;
    }

    /// Runs the synchronizer once, after camera movement and before
    /// rendering.  Axes are fully decoupled: on each one the canvas
    /// snaps to the high-res camera when the lag has reached a whole
    /// logical pixel, and the low-res camera advances by the
    /// whole-pixel part of that lag.  Right afterwards the canvas is
    /// within one logical pixel of the high-res camera, and a low-res
    /// camera that started on the whole-unit grid is still on it.
    pub fn synchronize(&mut self)
        requires
            old(self).pixel_scale_factor.valid(),
            old(self).in_bounds(),
        ensures
            final(self).high_res == old(self).high_res,
            final(self).pixel_scale_factor == old(self).pixel_scale_factor,
            final(self).canvas.position.x == spec_canvas_after(
                old(self).high_res.position.x as int,
                old(self).canvas.position.x as int,
                old(self).pixel_scale_factor.spec_threshold(),
            ),
            final(self).canvas.position.y == spec_canvas_after(
                old(self).high_res.position.y as int,
                old(self).canvas.position.y as int,
                old(self).pixel_scale_factor.spec_threshold(),
            ),
            final(self).low_res.position.x == spec_low_res_after(
                old(self).low_res.position.x as int,
                old(self).high_res.position.x - old(self).canvas.position.x,
                old(self).pixel_scale_factor.spec_threshold(),
            ),
            final(self).low_res.position.y == spec_low_res_after(
                old(self).low_res.position.y as int,
                old(self).high_res.position.y - old(self).canvas.position.y,
                old(self).pixel_scale_factor.spec_threshold(),
            ),
            // bounded lag: the canvas now tracks within one logical pixel
            abs(
                final(self).high_res.position.x - final(self).canvas.position.x,
            ) < old(self).pixel_scale_factor.spec_threshold(),
            abs(
                final(self).high_res.position.y - final(self).canvas.position.y,
            ) < old(self).pixel_scale_factor.spec_threshold(),
            // quantization: the low-res camera stays on the whole-unit grid
            old(self).low_res.position.grid_aligned()
                ==> final(self).low_res.position.grid_aligned(),
            final(self).canvas.position.in_bounds(),
    {
        let threshold: i64 = self.pixel_scale_factor.threshold();
        let (canvas_x, low_x) = sync_axis(
            self.high_res.position.x,
            self.canvas.position.x,
            self.low_res.position.x,
            threshold,
        );
        let (canvas_y, low_y) = sync_axis(
            self.high_res.position.y,
            self.canvas.position.y,
            self.low_res.position.y,
            threshold,
        );
        self.canvas.position.x = canvas_x;
        self.canvas.position.y = canvas_y;
        self.low_res.position.x = low_x;
        self.low_res.position.y = low_y;
        proof {
            let t: int = old(self).pixel_scale_factor.spec_threshold();
            let step_x: int = spec_step_units(
                old(self).high_res.position.x - old(self).canvas.position.x,
                t,
            );
            let step_y: int = spec_step_units(
                old(self).high_res.position.y - old(self).canvas.position.y,
                t,
            );
            lemma_mod_multiples_vanish(
                step_x,
                old(self).low_res.position.x as int,
                SUBPIXELS_PER_UNIT as int,
            );
            lemma_mod_multiples_vanish(
                step_y,
                old(self).low_res.position.y as int,
                SUBPIXELS_PER_UNIT as int,
            );
        }
    }
}

/// One axis of the synchronizer tick: the new canvas and low-res
/// coordinates for the given high-res coordinate, previous coordinates
/// and snap threshold, all in sub-pixel units.
fn sync_axis(high: i64, canvas: i64, low: i64, threshold: i64) -> (r: (i64, i64))
    requires
        SUBPIXELS_PER_UNIT <= threshold,
        -POSITION_LIMIT <= high <= POSITION_LIMIT,
        -POSITION_LIMIT <= canvas <= POSITION_LIMIT,
        -POSITION_LIMIT <= low <= POSITION_LIMIT,
    ensures
        r.0 == spec_canvas_after(high as int, canvas as int, threshold as int),
        r.1 == spec_low_res_after(low as int, high - canvas, threshold as int),
{
    let diff: i64 = high - canvas;
    let new_canvas: i64 = if diff >= threshold || diff <= -threshold {
        high
    } else {
        canvas
    };
    let step: i64;
    if diff >= threshold {
        let quotient: u64 = (diff as u64) / (threshold as u64);
        proof {
            lemma_div_nonincreasing(diff as int, threshold as int);
        }
        step = quotient as i64;
    } else if diff <= -threshold {
        let magnitude: i64 = -diff;
        let quotient: u64 = (magnitude as u64) / (threshold as u64);
        proof {
            lemma_div_nonincreasing(magnitude as int, threshold as int);
        }
        step = -(quotient as i64);
    } else {
        step = 0;
    }
    proof {
        lemma_scaled_step_bounded_by_lag(diff as int, threshold as int);
    }
    let new_low: i64 = low + step * SUBPIXELS_PER_UNIT;
    (new_canvas, new_low)
}

/// The distance the low-res camera covers in one tick, in sub-pixel
/// units, never exceeds the lag that prompted it.  This is what keeps
/// the per-tick update inside `i64` and is the sub-pixel face of the
/// no-overshoot property.
proof fn lemma_scaled_step_bounded_by_lag(diff: int, threshold: int)
    requires
        SUBPIXELS_PER_UNIT <= threshold,
    ensures
        abs(spec_step_units(diff, threshold) * SUBPIXELS_PER_UNIT) <= abs(diff),
{
    let sub: int = SUBPIXELS_PER_UNIT as int;
    if diff >= threshold {
        let quotient: int = diff / threshold;
        lemma_div_pos_is_pos(diff, threshold);
        lemma_div_is_ordered_by_denominator(diff, sub, threshold);
        lemma_mul_inequality(quotient, diff / sub, sub);
        lemma_fundamental_div_mod(diff, sub);
        lemma_mod_bound(diff, sub);
    } else if diff <= -threshold {
        let magnitude: int = -diff;
        let quotient: int = magnitude / threshold;
        lemma_div_pos_is_pos(magnitude, threshold);
        lemma_div_is_ordered_by_denominator(magnitude, sub, threshold);
        lemma_mul_inequality(quotient, magnitude / sub, sub);
        lemma_fundamental_div_mod(magnitude, sub);
        lemma_mod_bound(magnitude, sub);
        lemma_mul_unary_negation(quotient, sub);
    } else {
    }
}

/// Monotonic convergence: once the high-res camera stops moving, a
/// single synchronizer tick brings the system to rest.  If the lag had
/// reached a whole logical pixel — or was already zero — the canvas then
/// matches the high-res camera exactly, and in every case a further
/// tick with the same high-res position changes neither the canvas nor
/// the low-res camera.
pub proof fn lemma_convergence_after_one_tick(high: int, canvas: int, low: int, threshold: int)
    requires
        1 <= threshold,
    ensures
        ({
            let canvas_1: int = spec_canvas_after(high, canvas, threshold);
            let low_1: int = spec_low_res_after(low, high - canvas, threshold);
            &&& ((abs(high - canvas) >= threshold || high == canvas) ==> canvas_1 == high)
            &&& spec_canvas_after(high, canvas_1, threshold) == canvas_1
            &&& spec_low_res_after(low_1, high - canvas_1, threshold) == low_1
        }),
{
}

/// `ceil_div` really is the ceiling: for `a >= 0` and `b >= 1` it is
/// the least integer whose product with `b` reaches `a`.
pub proof fn lemma_ceil_div_is_ceiling(a: int, b: int)
    requires
        0 <= a,
        1 <= b,
    ensures
        b * ceil_div(a, b) >= a,
        b * (ceil_div(a, b) - 1) < a,
{
    let q: int = ceil_div(a, b);
    lemma_fundamental_div_mod(a + b - 1, b);
    lemma_mod_bound(a + b - 1, b);
    lemma_mul_is_distributive_sub(b, q, 1);
}

/// No overshoot: the low-res camera's whole-unit step per tick never
/// exceeds ceil(|diff| / threshold) in magnitude, and the distance it
/// covers — threshold times the step — never passes the lag itself, so
/// the camera never moves beyond the high-res camera's current
/// logical-pixel cell.
pub proof fn lemma_step_never_overshoots(diff: int, threshold: int)
    requires
        1 <= threshold,
    ensures
        abs(spec_step_units(diff, threshold)) <= ceil_div(abs(diff) as int, threshold),
        0 <= diff ==> 0 <= threshold * spec_step_units(diff, threshold) <= diff,
        diff <= 0 ==> diff <= threshold * spec_step_units(diff, threshold) <= 0,
{
    if diff >= threshold {
        lemma_div_pos_is_pos(diff, threshold);
        lemma_div_is_ordered(diff, diff + threshold - 1, threshold);
        lemma_fundamental_div_mod(diff, threshold);
        lemma_mod_bound(diff, threshold);
        lemma_mul_nonnegative(threshold, diff / threshold);
    } else if diff <= -threshold {
        let magnitude: int = -diff;
        lemma_div_pos_is_pos(magnitude, threshold);
        lemma_div_is_ordered(magnitude, magnitude + threshold - 1, threshold);
        lemma_fundamental_div_mod(magnitude, threshold);
        lemma_mod_bound(magnitude, threshold);
        lemma_mul_nonnegative(threshold, magnitude / threshold);
        lemma_mul_unary_negation(threshold, magnitude / threshold);
    } else {
    }
}

} // verus!
