use orbit_camera::camera::{CameraOrbitState, MAX_DISTANCE_FP, MIN_DISTANCE_FP};
use orbit_camera::camera::{fold_wheel_deltas, latest_position};
use orbit_camera::fixed::{Vec2Fp, Vec3Fp, HALF_PI_FP, SCALE, TAU_FP};

fn plain_state(distance: i64, azimuth: i64, elevation: i64) -> CameraOrbitState {
    CameraOrbitState {
        center: Vec3Fp { x: 0, y: 0, z: 0 },
        distance,
        azimuth,
        elevation,
        pan: Vec2Fp { x: 0, y: 0 },
    }
}

#[test]
fn initial_state_has_scene_defaults() {
    let s = CameraOrbitState::initial();
    assert_eq!(s.center, Vec3Fp { x: 0, y: 0, z: 0 });
    assert_eq!(s.distance, 200 * SCALE);
    assert_eq!(s.azimuth, -785_398);
    assert_eq!(s.elevation, 785_398);
    assert_eq!(s.pan, Vec2Fp { x: 0, y: 0 });
}

#[test]
fn zoom_scales_distance_by_one_minus_a_tenth() {
    let mut s = plain_state(200 * SCALE, 0, 0);
    s.apply_zoom(SCALE);
    assert_eq!(s.distance, 180 * SCALE);
}

#[test]
fn zoom_with_zero_delta_changes_nothing() {
    let mut s = CameraOrbitState::initial();
    let before = s;
    s.apply_zoom(0);
    assert_eq!(s, before);
}

#[test]
fn zoom_clamps_at_both_ends() {
    let mut s = plain_state(200 * SCALE, 0, 0);
    s.apply_zoom(i64::MAX);
    assert_eq!(s.distance, MIN_DISTANCE_FP);
    let mut t = plain_state(200 * SCALE, 0, 0);
    t.apply_zoom(-i64::MAX);
    assert_eq!(t.distance, MAX_DISTANCE_FP);
}

#[test]
fn zoom_past_a_sign_flip_lands_on_the_near_clamp() {
    // A wheel delta above ten units makes the scale factor negative; the
    // product falls below the range and the distance clamps to the minimum.
    let mut s = plain_state(200 * SCALE, 0, 0);
    s.apply_zoom(20 * SCALE);
    assert_eq!(s.distance, MIN_DISTANCE_FP);
}

#[test]
fn zoom_keeps_distance_inside_range_from_the_edges() {
    let mut s = plain_state(MIN_DISTANCE_FP, 0, 0);
    s.apply_zoom(5 * SCALE);
    assert_eq!(s.distance, MIN_DISTANCE_FP);
    let mut t = plain_state(MAX_DISTANCE_FP, 0, 0);
    t.apply_zoom(-5 * SCALE);
    assert_eq!(t.distance, MAX_DISTANCE_FP);
}

#[test]
fn zoom_touches_only_the_distance() {
    let mut s = CameraOrbitState::initial();
    let before = s;
    s.apply_zoom(3 * SCALE);
    assert_eq!(s.center, before.center);
    assert_eq!(s.azimuth, before.azimuth);
    assert_eq!(s.elevation, before.elevation);
    assert_eq!(s.pan, before.pan);
}

#[test]
fn drag_with_primary_turns_the_azimuth() {
    let mut s = plain_state(200 * SCALE, 0, 0);
    let last = Some(Vec2Fp { x: 0, y: 0 });
    let current = Some(Vec2Fp { x: 100 * SCALE, y: 0 });
    let stored = s.apply_pointer_drag(last, current, true, false);
    assert_eq!(stored, current);
    assert_eq!(s.azimuth, -500_000);
    assert_eq!(s.elevation, 0);
    assert_eq!(s.pan, Vec2Fp { x: 0, y: 0 });
}

#[test]
fn drag_with_primary_clamps_the_elevation() {
    let mut s = plain_state(200 * SCALE, 0, 0);
    let last = Some(Vec2Fp { x: 0, y: 0 });
    let up = Some(Vec2Fp { x: 0, y: i64::MAX / 2 });
    s.apply_pointer_drag(last, up, true, false);
    assert_eq!(s.elevation, HALF_PI_FP);
    let mut t = plain_state(200 * SCALE, 0, 0);
    let down = Some(Vec2Fp { x: 0, y: -(i64::MAX / 2) });
    t.apply_pointer_drag(last, down, true, false);
    assert_eq!(t.elevation, -HALF_PI_FP);
}

#[test]
fn drag_with_middle_pans_by_a_tenth_of_the_delta() {
    let mut s = plain_state(200 * SCALE, 0, 0);
    let last = Some(Vec2Fp { x: 0, y: 0 });
    let current = Some(Vec2Fp { x: 100 * SCALE, y: 50 * SCALE });
    s.apply_pointer_drag(last, current, false, true);
    assert_eq!(s.pan, Vec2Fp { x: 10 * SCALE, y: 5 * SCALE });
    assert_eq!(s.azimuth, 0);
    assert_eq!(s.elevation, 0);
}

#[test]
fn drag_with_both_buttons_pans_and_orbits_at_once() {
    let mut s = plain_state(200 * SCALE, 0, 0);
    let last = Some(Vec2Fp { x: 0, y: 0 });
    let current = Some(Vec2Fp { x: 100 * SCALE, y: 0 });
    s.apply_pointer_drag(last, current, true, true);
    assert_eq!(s.pan, Vec2Fp { x: 10 * SCALE, y: 0 });
    assert_eq!(s.azimuth, -500_000);
}

#[test]
fn drag_without_a_last_position_changes_nothing() {
    let mut s = CameraOrbitState::initial();
    let before = s;
    let current = Some(Vec2Fp { x: 7 * SCALE, y: 9 * SCALE });
    let stored = s.apply_pointer_drag(None, current, true, true);
    assert_eq!(s, before);
    assert_eq!(stored, current);
}

#[test]
fn drag_without_a_current_position_resets_the_stored_one() {
    let mut s = CameraOrbitState::initial();
    let before = s;
    let stored = s.apply_pointer_drag(Some(Vec2Fp { x: 1, y: 2 }), None, true, true);
    assert_eq!(s, before);
    assert_eq!(stored, None);
}

#[test]
fn drag_with_zero_delta_changes_nothing() {
    let mut s = CameraOrbitState::initial();
    let before = s;
    let here = Some(Vec2Fp { x: 33 * SCALE, y: -4 * SCALE });
    s.apply_pointer_drag(here, here, true, true);
    assert_eq!(s, before);
}

#[test]
fn drag_with_no_buttons_only_stores_the_position() {
    let mut s = CameraOrbitState::initial();
    let before = s;
    let stored = s.apply_pointer_drag(
        Some(Vec2Fp { x: 0, y: 0 }),
        Some(Vec2Fp { x: 55 * SCALE, y: 66 * SCALE }),
        false,
        false,
    );
    assert_eq!(s, before);
    assert_eq!(stored, Some(Vec2Fp { x: 55 * SCALE, y: 66 * SCALE }));
}

#[test]
fn transform_straight_ahead_stands_on_the_z_axis() {
    let s = plain_state(200 * SCALE, 0, 0);
    let pose = s.derive_transform();
    assert_eq!(pose.position, Vec3Fp { x: 0, y: 0, z: 200 * SCALE });
    assert_eq!(pose.target, Vec3Fp { x: 0, y: 0, z: 0 });
}

#[test]
fn transform_quarter_turn_of_azimuth_stands_on_the_x_axis() {
    let s = plain_state(200 * SCALE, HALF_PI_FP, 0);
    let pose = s.derive_transform();
    assert_eq!(pose.position, Vec3Fp { x: 200 * SCALE, y: 0, z: 0 });
}

#[test]
fn transform_quarter_turn_of_elevation_hangs_below() {
    let s = plain_state(200 * SCALE, 0, HALF_PI_FP);
    let pose = s.derive_transform();
    assert_eq!(pose.position, Vec3Fp { x: 0, y: -200 * SCALE, z: 0 });
}

#[test]
fn transform_is_periodic_in_a_full_turn_of_azimuth() {
    let s = plain_state(200 * SCALE, 123_456, 300_000);
    let mut t = s;
    t.azimuth = s.azimuth + TAU_FP;
    assert_eq!(s.derive_transform(), t.derive_transform());
}

#[test]
fn transform_is_deterministic() {
    let s = plain_state(321 * SCALE, -987_654, 456_789);
    assert_eq!(s.derive_transform(), s.derive_transform());
}

#[test]
fn transform_adds_center_and_pan_unrotated() {
    let mut s = plain_state(200 * SCALE, 0, 0);
    s.center = Vec3Fp { x: 10 * SCALE, y: 20 * SCALE, z: 30 * SCALE };
    s.pan = Vec2Fp { x: SCALE, y: 2 * SCALE };
    let pose = s.derive_transform();
    assert_eq!(
        pose.position,
        Vec3Fp { x: 11 * SCALE, y: 22 * SCALE, z: 230 * SCALE },
    );
    assert_eq!(pose.target, s.center);
}

#[test]
fn pan_can_make_the_pose_degenerate() {
    let mut s = plain_state(200 * SCALE, HALF_PI_FP, 0);
    assert!(!s.derive_transform().is_degenerate());
    s.pan = Vec2Fp { x: -200 * SCALE, y: 0 };
    let pose = s.derive_transform();
    assert_eq!(pose.position, pose.target);
    assert!(pose.is_degenerate());
}

#[test]
fn wheel_deltas_fold_by_summation() {
    assert_eq!(fold_wheel_deltas(&vec![]), 0);
    assert_eq!(fold_wheel_deltas(&vec![SCALE, 2 * SCALE, 3 * SCALE]), 6 * SCALE);
    assert_eq!(fold_wheel_deltas(&vec![5 * SCALE, -7 * SCALE]), -2 * SCALE);
    assert_eq!(fold_wheel_deltas(&vec![i64::MAX, -i64::MAX, 42]), 42);
}

#[test]
fn the_last_pointer_move_of_a_tick_wins() {
    assert_eq!(latest_position(&vec![]), None);
    let moves = vec![
        Vec2Fp { x: 1, y: 2 },
        Vec2Fp { x: 3, y: 4 },
        Vec2Fp { x: 5, y: 6 },
    ];
    assert_eq!(latest_position(&moves), Some(Vec2Fp { x: 5, y: 6 }));
}
