use fps_camera::camera::Camera;
use fps_camera::fixed::SCALE;
use fps_camera::input::{InputState, Key};
use fps_camera::projection::Projection;
use fps_camera::vec3::Vec3;

fn all_up() -> InputState {
    InputState::new()
}

#[test]
fn quit_key_fires_once_per_press() {
    let mut input = all_up();
    assert!(input.on_key_down(Key::Escape, false));
    // auto-repeat of the quit key must not re-trigger shutdown
    assert!(!input.on_key_down(Key::Escape, true));
    assert!(!input.on_key_down(Key::W, false));
    assert!(!input.on_key_down(Key::Other, false));
}

#[test]
fn repeated_key_down_adds_nothing() {
    let mut input = all_up();
    input.on_key_down(Key::W, false);
    let held = input;
    for _ in 0..50 {
        input.on_key_down(Key::W, true);
        input.on_key_down(Key::W, false);
    }
    assert_eq!(input, held);
    assert!(input.forward);
    assert!(!input.back);
}

#[test]
fn key_up_releases_unconditionally() {
    let mut input = all_up();
    input.on_key_down(Key::A, false);
    input.on_key_down(Key::D, false);
    input.on_key_up(Key::A);
    assert!(!input.strafe_left);
    assert!(input.strafe_right);
    input.on_key_up(Key::A);
    assert!(!input.strafe_left);
}

#[test]
fn no_keys_no_motion() {
    let mut cam = Camera::new(Vec3 { x: 7, y: 8, z: 9 });
    cam.update_position(&all_up(), 0, SCALE, SCALE);
    assert_eq!(cam.pos, Vec3 { x: 7, y: 8, z: 9 });
}

#[test]
fn zero_dt_no_motion() {
    let mut cam = Camera::new(Vec3 { x: 1, y: 2, z: 3 });
    let mut input = all_up();
    input.on_key_down(Key::W, false);
    input.on_key_down(Key::D, false);
    cam.update_position(&input, 0, SCALE, 0);
    assert_eq!(cam.pos, Vec3 { x: 1, y: 2, z: 3 });
}

#[test]
fn one_second_forward_reaches_origin() {
    // camera at (0, 0, 1), yaw 0 (sin 0, cos 1), forward held for 1 s
    let mut cam = Camera::new(Vec3 { x: 0, y: 0, z: SCALE });
    let mut input = all_up();
    input.on_key_down(Key::W, false);
    cam.update_position(&input, 0, SCALE, SCALE);
    assert_eq!(cam.pos, Vec3 { x: 0, y: 0, z: 0 });
}

#[test]
fn quarter_turn_then_forward_moves_along_negative_x() {
    // accumulate yaw of pi/2 through mouse motion, then hold forward 1 s
    let mut cam = Camera::new(Vec3 { x: 0, y: 0, z: 0 });
    cam.on_mouse_delta(-1_570_800, 0);
    assert_eq!(cam.yaw, 15_708); // pi/2 in fixed-point radians
    assert_eq!(cam.pitch, 0);
    // sin and cos of the updated yaw feed the same frame's movement
    let mut input = all_up();
    input.on_key_down(Key::W, false);
    cam.update_position(&input, SCALE, 0, SCALE);
    assert_eq!(cam.pos, Vec3 { x: -SCALE, y: 0, z: 0 });
}

#[test]
fn diagonal_movement_is_the_vector_sum() {
    let mut cam = Camera::new(Vec3 { x: 0, y: 0, z: 0 });
    let mut input = all_up();
    input.on_key_down(Key::W, false);
    input.on_key_down(Key::D, false);
    cam.update_position(&input, 0, SCALE, SCALE);
    // forward (0,0,-1) plus strafe right (1,0,0), unnormalized
    assert_eq!(cam.pos, Vec3 { x: SCALE, y: 0, z: -SCALE });
}

#[test]
fn opposite_keys_cancel() {
    let mut cam = Camera::new(Vec3 { x: 5, y: 0, z: 5 });
    let mut input = all_up();
    input.on_key_down(Key::W, false);
    input.on_key_down(Key::S, false);
    cam.update_position(&input, 0, SCALE, SCALE);
    assert_eq!(cam.pos, Vec3 { x: 5, y: 0, z: 5 });
}

#[test]
fn mouse_delta_accumulates_and_touches_nothing_else() {
    let mut cam = Camera::new(Vec3 { x: 1, y: 2, z: 3 });
    cam.on_mouse_delta(200, -100);
    // yaw -= dx * 0.01, pitch -= dy * 0.01
    assert_eq!(cam.yaw, -2);
    assert_eq!(cam.pitch, 1);
    assert_eq!(cam.pos, Vec3 { x: 1, y: 2, z: 3 });
}

#[test]
fn resize_updates_only_the_aspect_pair() {
    let mut proj = Projection::new(800_000, 800, 600, 1_000, 1_000_000);
    proj.resize(1920, 1080);
    assert_eq!(proj.width, 1920);
    assert_eq!(proj.height, 1080);
    assert_eq!(proj.fov_deg, 800_000);
    assert_eq!(proj.near, 1_000);
    assert_eq!(proj.far, 1_000_000);
}

#[test]
fn view_matrix_inverts_world_matrix_exactly() {
    // (0.6, 0.8) is an exact fixed-point sine/cosine pair: on the circle
    let sy = 6_000;
    let cy = 8_000;
    let sp = 0;
    let cp = SCALE;
    let pos = Vec3 { x: 30_000, y: -20_000, z: 50_000 };
    let v = fps_camera::mat4::view_matrix(sy, cy, sp, cp, pos);
    let w = fps_camera::mat4::world_matrix(sy, cy, sp, cp, pos);
    let va = [
        [v.m00, v.m01, v.m02, v.m03],
        [v.m10, v.m11, v.m12, v.m13],
        [v.m20, v.m21, v.m22, v.m23],
        [v.m30, v.m31, v.m32, v.m33],
    ];
    let wa = [
        [w.m00, w.m01, w.m02, w.m03],
        [w.m10, w.m11, w.m12, w.m13],
        [w.m20, w.m21, w.m22, w.m23],
        [w.m30, w.m31, w.m32, w.m33],
    ];
    let unit: i128 = (SCALE as i128).pow(4);
    for order in 0..2 {
        let (a, b) = if order == 0 { (&va, &wa) } else { (&wa, &va) };
        for i in 0..4 {
            for j in 0..4 {
                let mut e: i128 = 0;
                for m in 0..4 {
                    e += a[i][m] as i128 * b[m][j] as i128;
                }
                assert_eq!(e, if i == j { unit } else { 0 }, "entry {} {}", i, j);
            }
        }
    }
}

#[test]
fn perspective_matrix_reflects_the_resized_aspect() {
    let mut proj = Projection::new(800_000, 640, 480, 1_000, 1_000_000);
    proj.resize(800, 600);
    let m = proj.matrix(11_917); // cot(40 degrees), fixed-point
    assert_eq!(m.m00, 11_917 * 600 / 800);
    assert_eq!(m.m00, 8_937);
    assert_eq!(m.m11, 11_917);
    assert_eq!(m.m22, -10_020);
    assert_eq!(m.m23, -2_002);
    assert_eq!(m.m32, -10_000);
    assert_eq!(m.m33, 0);
    assert_eq!(m.m01, 0);
    assert_eq!(m.m12, 0);
}
