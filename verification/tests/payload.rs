//! Tests of the frame-payload layouts against real 32-bit float values.

use orbitview::camera::Camera;
use orbitview::camera::QuatBits;
use orbitview::camera::DEFAULT_PITCH_BITS;
use orbitview::camera::DEFAULT_RADIUS_BITS;
use orbitview::camera::DEFAULT_YAW_BITS;
use orbitview::camera::F32_SIGN_BIT;
use orbitview::camera::SCROLL_SENSITIVITY_BITS;
use orbitview::camera::SMOOTHING_STIFFNESS_BITS;
use orbitview::render;
use orbitview::viewport;
use orbitview::viewport::DT_CLAMP_BITS;
use orbitview::viewport::MAX_ITERATIONS;
use orbitview::viewport::MIN_STEP_SIZE_BITS;

fn quat_bits_from(q: glam::Quat) -> QuatBits {
    let a = q.to_array();
    QuatBits {
        x: a[0].to_bits(),
        y: a[1].to_bits(),
        z: a[2].to_bits(),
        w: a[3].to_bits(),
    }
}

#[test]
fn default_camera_matches_float_defaults() {
    let c = Camera::default();
    assert_eq!(c.yaw, 1.0f32.to_bits());
    assert_eq!(c.pitch, 0.5f32.to_bits());
    assert_eq!(c.radius, 4.0f32.to_bits());
    assert_eq!(c.yaw, DEFAULT_YAW_BITS);
    assert_eq!(c.pitch, DEFAULT_PITCH_BITS);
    assert_eq!(c.radius, DEFAULT_RADIUS_BITS);
}

#[test]
fn constants_match_float_values() {
    assert_eq!(SCROLL_SENSITIVITY_BITS, 0.01f32.to_bits());
    assert_eq!(SMOOTHING_STIFFNESS_BITS, 0.9f32.to_bits());
    assert_eq!(DT_CLAMP_BITS, 0.1f32.to_bits());
    assert_eq!(MIN_STEP_SIZE_BITS, 0.001f32.to_bits());
}

#[test]
fn sign_bit_flip_negates() {
    for v in [0.0f32, 1.0, 0.5, 4.0, 123.456, 1.0e-20, 3.0e20] {
        assert_eq!((-v).to_bits(), v.to_bits() ^ F32_SIGN_BIT);
        assert_eq!(v.to_bits(), (-v).to_bits() ^ F32_SIGN_BIT);
    }
}

#[test]
fn eye_sits_at_negative_radius() {
    let c = Camera {
        yaw: 0.25f32.to_bits(),
        pitch: 1.5f32.to_bits(),
        radius: 7.5f32.to_bits(),
    };
    let e = c.eye();
    assert_eq!(f32::from_bits(e.x), 0.0);
    assert_eq!(f32::from_bits(e.y), 0.0);
    assert_eq!(f32::from_bits(e.z), -7.5);
}

#[test]
fn fixed_camera_payload_is_identity_rotation_and_offset_eye() {
    // A camera with yaw 0, pitch 0, radius 4 and aspect ratio 1.0: the
    // rotation must be the identity quaternion and the eye (0, 0, -4).
    let camera = Camera {
        yaw: 0.0f32.to_bits(),
        pitch: 0.0f32.to_bits(),
        radius: 4.0f32.to_bits(),
    };
    let rotation = quat_bits_from(
        glam::Quat::from_rotation_y(f32::from_bits(camera.yaw))
            * glam::Quat::from_rotation_x(f32::from_bits(camera.pitch)),
    );
    assert_eq!(
        (rotation.x, rotation.y, rotation.z, rotation.w),
        (
            0.0f32.to_bits(),
            0.0f32.to_bits(),
            0.0f32.to_bits(),
            1.0f32.to_bits()
        )
    );

    let u = render::Uniforms::from_camera(rotation, &camera, 1.0f32.to_bits(), 0.0f32.to_bits());
    assert_eq!(f32::from_bits(u.eye.x), 0.0);
    assert_eq!(f32::from_bits(u.eye.y), 0.0);
    assert_eq!(f32::from_bits(u.eye.z), -4.0);

    let bytes = u.encode();
    assert_eq!(bytes.len(), 48);
    let mut expected: Vec<u8> = Vec::new();
    for w in [
        0.0f32.to_bits(),
        0.0f32.to_bits(),
        0.0f32.to_bits(),
        1.0f32.to_bits(),
        0.0f32.to_bits(),
        0.0f32.to_bits(),
        (-4.0f32).to_bits(),
        1.0f32.to_bits(),
        0.0f32.to_bits(),
        0,
        0,
        0,
    ] {
        expected.extend_from_slice(&w.to_le_bytes());
    }
    assert_eq!(bytes, expected);
}

#[test]
fn owned_payload_layout_is_little_endian_in_declared_order() {
    let camera = Camera {
        yaw: 0.3f32.to_bits(),
        pitch: 0.7f32.to_bits(),
        radius: 2.5f32.to_bits(),
    };
    let rotation = quat_bits_from(
        glam::Quat::from_rotation_y(0.3) * glam::Quat::from_rotation_x(0.7),
    );
    let aspect = (800.0f32 / 600.0f32).to_bits();
    let time = 12.25f32.to_bits();
    let bytes = render::Uniforms::from_camera(rotation, &camera, aspect, time).encode();
    assert_eq!(bytes.len(), 48);

    let words = [
        rotation.x,
        rotation.y,
        rotation.z,
        rotation.w,
        0.0f32.to_bits(),
        0.0f32.to_bits(),
        (-2.5f32).to_bits(),
        aspect,
        time,
        0,
        0,
        0,
    ];
    for (i, w) in words.iter().enumerate() {
        assert_eq!(&bytes[4 * i..4 * i + 4], &w.to_le_bytes());
    }
}

#[test]
fn embedded_payload_layout_and_tuning_scalars() {
    let camera = Camera {
        yaw: 1.2f32.to_bits(),
        pitch: 0.1f32.to_bits(),
        radius: 4.0f32.to_bits(),
    };
    let rotation = quat_bits_from(
        glam::Quat::from_rotation_y(1.2) * glam::Quat::from_rotation_x(0.1),
    );
    let aspect = 1.5f32.to_bits();
    let time = 3.5f32.to_bits();
    let u = viewport::Uniforms::from_camera(rotation, &camera, aspect, time);
    assert_eq!(u.max_iterations, 64);
    assert_eq!(u.max_iterations, MAX_ITERATIONS);
    assert_eq!(f32::from_bits(u.min_step_size), 0.001);

    let bytes = u.encode();
    assert_eq!(bytes.len(), 44);
    let words = [
        rotation.x,
        rotation.y,
        rotation.z,
        rotation.w,
        0.0f32.to_bits(),
        0.0f32.to_bits(),
        (-4.0f32).to_bits(),
        aspect,
        64u32,
        0.001f32.to_bits(),
        time,
    ];
    for (i, w) in words.iter().enumerate() {
        assert_eq!(&bytes[4 * i..4 * i + 4], &w.to_le_bytes());
    }
}

#[test]
fn scroll_of_one_hundred_adds_exactly_one_radian_of_yaw() {
    // Scroll input of (dx=100, dy=0): the target yaw moves by
    // 100 * 0.01 = 1.0 radians exactly; nothing else moves.
    let mut vp = orbitview::viewport::Viewport::default();
    let sensitivity = f32::from_bits(SCROLL_SENSITIVITY_BITS);
    let yaw_before = f32::from_bits(vp.camera.yaw);
    let new_yaw = yaw_before + sensitivity * 100.0;
    vp.camera.yaw = new_yaw.to_bits();
    assert_eq!(f32::from_bits(vp.camera.yaw), yaw_before + 1.0);
    // The smoothed camera is untouched until the next advance.
    assert_eq!(vp.camera_smoothed, Camera::default());
}
