use pixel_camera::{CameraSyncState, PixelScaleFactor, Position, SUBPIXELS_PER_UNIT};

fn state_with_scale(factor: u32) -> CameraSyncState {
    let scale = PixelScaleFactor::new(factor).unwrap();
    CameraSyncState::new(scale)
}

#[test]
fn scenario_snap_and_step() {
    // pixelScaleFactor = 4: high-res camera jumps from 0 to x=10 units.
    // diff = 10 units >= 4, so the canvas snaps to x=10 and the low-res
    // camera advances by floor(10 / 4) = 2 whole units.
    let mut state = state_with_scale(4);
    state.track_subject(Position::from_units(10, 0));
    state.synchronize();
    assert_eq!(state.canvas.position, Position::from_units(10, 0));
    assert_eq!(state.low_res.position, Position::from_units(2, 0));
    assert_eq!(state.high_res.position, Position::from_units(10, 0));
}

#[test]
fn scenario_settled_tick() {
    // Continuing: the high-res camera stays at x=10, so diff = 0 and
    // neither the canvas nor the low-res camera moves.
    let mut state = state_with_scale(4);
    state.track_subject(Position::from_units(10, 0));
    state.synchronize();
    state.synchronize();
    assert_eq!(state.canvas.position, Position::from_units(10, 0));
    assert_eq!(state.low_res.position, Position::from_units(2, 0));
}

#[test]
fn scenario_negative_lag() {
    // high-res camera moves from 0 to x=-9 with pixelScaleFactor = 4:
    // |diff| = 9 >= 4 snaps the canvas to -9, and the low-res camera
    // advances by ceil(-9 / 4) = -2 whole units.
    let mut state = state_with_scale(4);
    state.track_subject(Position::from_units(-9, 0));
    state.synchronize();
    assert_eq!(state.canvas.position, Position::from_units(-9, 0));
    assert_eq!(state.low_res.position, Position::from_units(-2, 0));
}

#[test]
fn boundary_exact_logical_pixel() {
    // diff exactly 4 with pixelScaleFactor = 4: the boundary is
    // inclusive, so the canvas snaps and the low-res camera steps by
    // floor(4 / 4) = 1.
    let mut state = state_with_scale(4);
    state.track_subject(Position::from_units(4, 0));
    state.synchronize();
    assert_eq!(state.canvas.position, Position::from_units(4, 0));
    assert_eq!(state.low_res.position, Position::from_units(1, 0));
}

#[test]
fn below_threshold_nothing_moves() {
    // diff = 3 units < 4: the canvas intentionally lags and the
    // low-res camera stays put.
    let mut state = state_with_scale(4);
    state.track_subject(Position::from_units(3, 0));
    state.synchronize();
    assert_eq!(state.canvas.position, Position::from_units(0, 0));
    assert_eq!(state.low_res.position, Position::from_units(0, 0));
}

#[test]
fn lag_accumulates_then_snaps() {
    // Two moves of 2 units each: the first tick leaves everything in
    // place, the second sees an accumulated lag of 4 and snaps.
    let mut state = state_with_scale(4);
    state.track_subject(Position::from_units(2, 0));
    state.synchronize();
    assert_eq!(state.canvas.position, Position::from_units(0, 0));
    state.track_subject(Position::from_units(4, 0));
    state.synchronize();
    assert_eq!(state.canvas.position, Position::from_units(4, 0));
    assert_eq!(state.low_res.position, Position::from_units(1, 0));
}

#[test]
fn axes_are_independent() {
    // x crosses the threshold while y stays below it.
    let mut state = state_with_scale(4);
    state.track_subject(Position::from_units(5, -3));
    state.synchronize();
    assert_eq!(state.canvas.position, Position::new(5 * SUBPIXELS_PER_UNIT, 0));
    assert_eq!(state.low_res.position, Position::new(SUBPIXELS_PER_UNIT, 0));
}

#[test]
fn subpixel_motion_keeps_low_res_on_grid() {
    // Fractional subject positions: the canvas snaps to sub-pixel
    // coordinates, but the low-res camera only ever sits on whole
    // units of SUBPIXELS_PER_UNIT.
    let mut state = state_with_scale(4);
    let targets: [i64; 5] = [1100, 2300, 2500, -700, -3000];
    for t in targets {
        state.track_subject(Position::new(t, t / 2));
        state.synchronize();
        assert_eq!(state.low_res.position.x % SUBPIXELS_PER_UNIT, 0);
        assert_eq!(state.low_res.position.y % SUBPIXELS_PER_UNIT, 0);
    }
}

#[test]
fn bounded_lag_after_every_tick() {
    // Right after each tick the canvas is within one logical pixel
    // (threshold sub-pixel units) of the high-res camera, on each axis.
    let mut state = state_with_scale(4);
    let threshold = 4 * SUBPIXELS_PER_UNIT;
    let targets: [(i64, i64); 6] =
        [(2560, 0), (2560, -2304), (100, 99), (-5000, 5000), (0, 0), (1023, -1025)];
    for (x, y) in targets {
        state.track_subject(Position::new(x, y));
        state.synchronize();
        assert!((state.high_res.position.x - state.canvas.position.x).abs() < threshold);
        assert!((state.high_res.position.y - state.canvas.position.y).abs() < threshold);
    }
}

#[test]
fn convergence_once_subject_stops() {
    // The subject stops after a jump: one tick snaps the canvas to the
    // high-res camera, and further ticks change nothing at all.
    let mut state = state_with_scale(4);
    state.track_subject(Position::from_units(37, -12));
    state.synchronize();
    assert_eq!(state.canvas.position, state.high_res.position);
    let settled = state;
    state.synchronize();
    state.synchronize();
    assert_eq!(state, settled);
}

#[test]
fn step_never_exceeds_ceiling_of_lag() {
    // diff = 10 units, scale 4: the step is 2, never more than
    // ceil(10 / 4) = 3, and the camera does not pass the target cell.
    let mut state = state_with_scale(4);
    state.track_subject(Position::from_units(10, 0));
    state.synchronize();
    let step_units = state.low_res.position.x / SUBPIXELS_PER_UNIT;
    assert!(step_units.abs() <= 3);
    assert!(4 * step_units * SUBPIXELS_PER_UNIT <= 10 * SUBPIXELS_PER_UNIT);
}

#[test]
fn move_high_res_accumulates_displacement() {
    let mut state = state_with_scale(2);
    state.move_high_res(100, -50);
    state.move_high_res(28, 50);
    assert_eq!(state.high_res.position, Position::new(128, 0));
    assert_eq!(state.canvas.position, Position::new(0, 0));
    assert_eq!(state.low_res.position, Position::new(0, 0));
}

#[test]
fn scale_one_snaps_every_whole_unit() {
    // With pixelScaleFactor = 1 a lag of one world unit already snaps.
    let mut state = state_with_scale(1);
    state.track_subject(Position::from_units(1, 1));
    state.synchronize();
    assert_eq!(state.canvas.position, Position::from_units(1, 1));
    assert_eq!(state.low_res.position, Position::from_units(1, 1));
}
