use glcore::camera::{Camera, MovementKeys, Vec3Fixed};

const NO_KEYS: MovementKeys =
    MovementKeys { forward: false, backward: false, left: false, right: false };

#[test]
fn default_state_looks_down_negative_z() {
    let cam = Camera::default();
    assert_eq!(cam.position, Vec3Fixed { x: 0, y: 0, z: 0 });
    // The documented initial-state invariant: yaw -90 degrees and pitch 0
    // resolve to a front vector of (0, 0, -1).
    assert_eq!(cam.yaw, -90_000);
    assert_eq!(cam.pitch, 0);
    assert_eq!(cam.front, Vec3Fixed { x: 0, y: 0, z: -1_000_000 });
    assert_eq!(cam.up, Vec3Fixed { x: 0, y: 1_000_000, z: 0 });
    assert_eq!(cam.speed, 2_500);
}

#[test]
fn forward_for_one_second_moves_two_and_a_half_units() {
    let mut cam = Camera::default();
    let keys = MovementKeys { forward: true, ..NO_KEYS };
    cam.process_input(keys, 1_000);
    // 2.5 units per second along front (0, 0, -1): micro-unit exact.
    assert_eq!(cam.position, Vec3Fixed { x: 0, y: 0, z: -2_500_000 });
}

#[test]
fn opposite_keys_cancel() {
    let mut cam = Camera::default();
    let keys = MovementKeys { forward: true, backward: true, ..NO_KEYS };
    cam.process_input(keys, 1_000);
    assert_eq!(cam.position, Vec3Fixed { x: 0, y: 0, z: 0 });
}

#[test]
fn forward_and_strafe_combine_additively() {
    let mut cam = Camera::default();
    let keys = MovementKeys { forward: true, right: true, ..NO_KEYS };
    cam.process_input(keys, 2_000);
    // Right is (1, 0, 0) at the initial orientation.
    assert_eq!(cam.position, Vec3Fixed { x: 5_000_000, y: 0, z: -5_000_000 });

    let keys = MovementKeys { left: true, ..NO_KEYS };
    cam.process_input(keys, 2_000);
    assert_eq!(cam.position, Vec3Fixed { x: 0, y: 0, z: -5_000_000 });
}

#[test]
fn look_scales_deltas_by_a_tenth_of_a_degree() {
    let mut cam = Camera::default();
    cam.mouse_input(10, -20);
    // Yaw grows with horizontal motion; pitch moves against vertical.
    assert_eq!(cam.yaw, -90_000 + 1_000);
    assert_eq!(cam.pitch, 2_000);
}

#[test]
fn pitch_is_clamped_at_both_poles() {
    let mut cam = Camera::default();
    // A huge downward sweep pins pitch at -89 degrees, no further.
    cam.mouse_input(0, 1_000_000);
    assert_eq!(cam.pitch, -89_000);
    // A huge upward sweep pins it at +89 degrees.
    cam.mouse_input(0, -2_000_000);
    assert_eq!(cam.pitch, 89_000);
}

#[test]
fn pitch_stays_clamped_over_any_event_sequence() {
    let mut cam = Camera::default();
    let sweeps: [(i64, i64); 7] =
        [(35, 880), (-100, -2_000), (3, 3), (0, 500_000), (123, -999_999), (-4, 17), (9, 9)];
    for (dx, dy) in sweeps {
        cam.mouse_input(dx, dy);
        assert!(-89_000 <= cam.pitch && cam.pitch <= 89_000);
    }
}

#[test]
fn movement_follows_updated_orientation() {
    let mut cam = Camera::default();
    // The shell turned the camera to face +x (yaw 0): it hands the derived
    // vectors back and movement follows them.
    cam.set_orientation(
        Vec3Fixed { x: 1_000_000, y: 0, z: 0 },
        Vec3Fixed { x: 0, y: 0, z: 1_000_000 },
    );
    let keys = MovementKeys { forward: true, ..NO_KEYS };
    cam.process_input(keys, 500);
    assert_eq!(cam.position, Vec3Fixed { x: 1_250_000, y: 0, z: 0 });
}

#[test]
fn scaling_rounds_toward_zero_per_component() {
    let mut cam = Camera::default();
    cam.set_orientation(
        Vec3Fixed { x: 707_107, y: 0, z: -707_107 },
        Vec3Fixed { x: 707_107, y: 0, z: 707_107 },
    );
    let keys = MovementKeys { forward: true, ..NO_KEYS };
    cam.process_input(keys, 1_000);
    // 707107 * 2500000 / 1000000 = 1767767.5, rounded toward zero.
    assert_eq!(cam.position, Vec3Fixed { x: 1_767_767, y: 0, z: -1_767_767 });
}
