use pixel_camera::DirectionalInput;

fn keys(up: bool, down: bool, left: bool, right: bool) -> DirectionalInput {
    DirectionalInput { up, down, left, right }
}

#[test]
fn no_keys_no_direction() {
    assert_eq!(keys(false, false, false, false).direction(), (0, 0));
}

#[test]
fn single_keys() {
    assert_eq!(keys(true, false, false, false).direction(), (0, 1));
    assert_eq!(keys(false, true, false, false).direction(), (0, -1));
    assert_eq!(keys(false, false, true, false).direction(), (-1, 0));
    assert_eq!(keys(false, false, false, true).direction(), (1, 0));
}

#[test]
fn diagonals() {
    assert_eq!(keys(true, false, false, true).direction(), (1, 1));
    assert_eq!(keys(false, true, true, false).direction(), (-1, -1));
}

#[test]
fn opposite_keys_cancel() {
    assert_eq!(keys(true, true, false, false).direction(), (0, 0));
    assert_eq!(keys(false, false, true, true).direction(), (0, 0));
    assert_eq!(keys(true, true, true, true).direction(), (0, 0));
}
