use msdf_renderer::camera::{Camera, InputEvent, KeyCode, MoveState, RotationMatrix, ROT_SCALE};
use msdf_renderer::offset_entity::{OffsetEntity, BOUNCE};

fn key(code: KeyCode, pressed: bool) -> InputEvent {
    InputEvent::Keyboard { key: code, pressed }
}

#[test]
fn camera_starts_behind_the_origin() {
    let c = Camera::default();
    assert_eq!(c.location, [0, 0, -3_000_000_000_000]);
    assert!(!c.speedup);
    assert_eq!(c.rotation.rows, RotationMatrix::identity().rows);
}

#[test]
fn move_state_velocities() {
    assert_eq!(MoveState { neg: false, pos: false }.into_velocity(), 0);
    assert_eq!(MoveState { neg: true, pos: true }.into_velocity(), 0);
    assert_eq!(MoveState { neg: false, pos: true }.into_velocity(), 1);
    assert_eq!(MoveState { neg: true, pos: false }.into_velocity(), -1);
}

#[test]
fn holding_forward_moves_one_unit_per_second() {
    let mut c = Camera::default();
    c.on_event(&key(KeyCode::W, true));
    c.update(1_000_000);
    assert_eq!(c.location, [0, 0, -2_000_000_000_000]);
}

#[test]
fn speed_modifier_multiplies_by_ten() {
    let mut c = Camera::default();
    c.on_event(&key(KeyCode::W, true));
    c.on_event(&key(KeyCode::LShift, true));
    c.update(1_000_000);
    assert_eq!(c.location, [0, 0, 7_000_000_000_000]);
}

#[test]
fn released_key_stops_movement() {
    let mut c = Camera::default();
    c.on_event(&key(KeyCode::W, true));
    c.on_event(&key(KeyCode::W, false));
    c.update(1_000_000);
    assert_eq!(c.location, [0, 0, -3_000_000_000_000]);
}

#[test]
fn opposed_keys_cancel() {
    let mut c = Camera::default();
    c.on_event(&key(KeyCode::A, true));
    c.on_event(&key(KeyCode::D, true));
    c.update(1_000_000);
    assert_eq!(c.location, [0, 0, -3_000_000_000_000]);
}

#[test]
fn sideways_keys_drive_the_first_axis() {
    let mut c = Camera::default();
    c.on_event(&key(KeyCode::D, true));
    c.update(500_000);
    assert_eq!(c.location, [500_000_000_000, 0, -3_000_000_000_000]);
}

#[test]
fn mouse_rotation_redirects_movement() {
    let mut c = Camera::default();
    // a quarter turn: camera-space forward now points along world x
    let turned = RotationMatrix {
        rows: [[0, 0, ROT_SCALE], [0, ROT_SCALE, 0], [-ROT_SCALE, 0, 0]],
    };
    c.on_event(&InputEvent::MouseRotation { rotation: turned });
    c.on_event(&key(KeyCode::W, true));
    c.update(1_000_000);
    assert_eq!(c.location, [1_000_000_000_000, 0, -3_000_000_000_000]);
}

#[test]
fn offset_starts_at_rest() {
    let e = OffsetEntity::new();
    assert_eq!(e.offset_parameter, [0, 0, 0]);
    assert_eq!(e.offset_velocity, [0, 0, 0]);
}

#[test]
fn releasing_a_steering_key_kicks_the_velocity() {
    let mut e = OffsetEntity::new();
    e.on_event(&key(KeyCode::J, false));
    assert_eq!(e.offset_velocity, [-BOUNCE, 0, 0]);
    e.on_event(&key(KeyCode::I, false));
    assert_eq!(e.offset_velocity, [-BOUNCE, 0, BOUNCE]);
    e.on_event(&key(KeyCode::U, false));
    assert_eq!(e.offset_velocity, [-BOUNCE, BOUNCE, BOUNCE]);
}

#[test]
fn pressing_a_steering_key_does_nothing() {
    let mut e = OffsetEntity::new();
    e.on_event(&key(KeyCode::J, true));
    assert_eq!(e.offset_velocity, [0, 0, 0]);
}

#[test]
fn offset_integrates_and_damps() {
    let mut e = OffsetEntity::new();
    e.on_event(&key(KeyCode::L, false));
    e.update(1_000_000);
    // one second at one unit per second
    assert_eq!(e.offset_parameter, [1_000_000_000_000, 0, 0]);
    // velocity divided by one and a half
    assert_eq!(e.offset_velocity, [666_666, 0, 0]);
}

#[test]
fn slow_velocity_stops_entirely() {
    let mut e = OffsetEntity::new();
    e.on_event(&key(KeyCode::K, false));
    e.update(86_400_000_000);
    assert_eq!(e.offset_velocity, [0, 0, 0]);
}
