//! Embedded rendering inside a host UI: the push-constant payload, the pair
//! of live cameras a session keeps, and the clamp on the host-reported frame
//! delta.
//!
//! In this mode the host owns device, render pass and submission; the crate
//! keeps what the viewport decides and computes: the exact bytes pushed to
//! the fragment stage, the session's camera state, and how a frame's elapsed
//! time is bounded before the smoothed camera is advanced.

use vstd::prelude::*;

use crate::bytes::push_word;
use crate::bytes::word_bytes;
use crate::camera::Camera;
use crate::camera::F32_SIGN_BIT;
use crate::camera::QuatBits;
use crate::camera::Vec3Bits;

verus! {

/// Upper bound on the ray-march iteration count the shader runs per fragment.
pub const MAX_ITERATIONS: u32 = 64;

/// Bit pattern of `0.001f32`, the smallest ray-march step the shader takes.
pub const MIN_STEP_SIZE_BITS: u32 = 0x3A83_126F;

/// Bit pattern of `0.1f32`, the upper bound a frame's elapsed time is
/// clamped to before the smoothed camera is advanced, so a stalled frame
/// cannot cause a large jump.
pub const DT_CLAMP_BITS: u32 = 0x3DCC_CCCD;

/// Size of the encoded push-constant payload: eleven words, no padding.
pub const PUSH_CONSTANT_BYTES: u64 = 44;

/// The per-frame payload pushed to the fragment stage in embedded mode.
/// Field order is a contract with the shader and must not change. Every
/// field but `max_iterations` holds the bit pattern of a 32-bit float;
/// `max_iterations` is a plain unsigned count.
#[derive(Clone, Copy, Debug, PartialEq, Eq, Structural)]
pub struct Uniforms {
    /// Rotation of the view, as a quaternion.
    pub rotation: QuatBits,
    /// Offset of the eye from the look-at origin.
    pub eye: Vec3Bits,
    /// Width over height of the reserved screen rectangle.
    pub viewport_aspect_ratio: u32,
    /// Ray-march iteration bound.
    pub max_iterations: u32,
    /// Smallest ray-march step size.
    pub min_step_size: u32,
    /// Seconds elapsed since the pipeline was created.
    pub time: u32,
}

impl Uniforms {
    /// The payload for one frame. The eye is placed at `-radius` on the view
    /// axis of the given camera; the tuning scalars are the fixed ones
    /// above; rotation, aspect ratio and time are taken as handed in.
    pub fn from_camera(
        rotation: QuatBits,
        camera: &Camera,
        viewport_aspect_ratio: u32,
        time: u32,
    ) -> (u: Uniforms)
        ensures
            u.rotation == rotation,
            u.eye == camera.eye_offset(),
            u.viewport_aspect_ratio == viewport_aspect_ratio,
            u.max_iterations == MAX_ITERATIONS,
            u.min_step_size == MIN_STEP_SIZE_BITS,
            u.time == time,
    {
        Uniforms {
            rotation,
            eye: camera.eye(),
            viewport_aspect_ratio,
            max_iterations: MAX_ITERATIONS,
            min_step_size: MIN_STEP_SIZE_BITS,
            time,
        }
    }

    /// The wire form of the payload: rotation, eye, aspect ratio, iteration
    /// bound, step size and time, each word little-endian, in that order.
    pub open spec fn bytes(self) -> Seq<u8> {
        word_bytes(self.rotation.x) + word_bytes(self.rotation.y) + word_bytes(self.rotation.z)
            + word_bytes(self.rotation.w) + word_bytes(self.eye.x) + word_bytes(self.eye.y)
            + word_bytes(self.eye.z) + word_bytes(self.viewport_aspect_ratio)
            + word_bytes(self.max_iterations) + word_bytes(self.min_step_size)
            + word_bytes(self.time)
    }

    /// Encodes the payload for the push-constant write.
    pub fn encode(&self) -> (out: Vec<u8>)
        ensures
            out@ == self.bytes(),
            out@.len() == PUSH_CONSTANT_BYTES,
    {
        let mut out: Vec<u8> = Vec::new();
        push_word(&mut out, self.rotation.x);
        push_word(&mut out, self.rotation.y);
        push_word(&mut out, self.rotation.z);
        push_word(&mut out, self.rotation.w);
        push_word(&mut out, self.eye.x);
        push_word(&mut out, self.eye.y);
        push_word(&mut out, self.eye.z);
        push_word(&mut out, self.viewport_aspect_ratio);
        push_word(&mut out, self.max_iterations);
        push_word(&mut out, self.min_step_size);
        push_word(&mut out, self.time);
        proof {
            assert(out@ =~= self.bytes());
        }
        out
    }
}

/// Law: the embedded-mode wire layout, field by field. Each field of the
/// payload sits at a fixed byte offset — rotation at 0, eye at 16, aspect
/// ratio at 28, iteration bound at 32, step size at 36, time at 40 — and
/// moving any of them is a breaking change to the shader contract.
pub proof fn lemma_embedded_wire_layout(u: Uniforms)
    ensures
        u.bytes().len() == PUSH_CONSTANT_BYTES,
        u.bytes().subrange(0, 4) == word_bytes(u.rotation.x),
        u.bytes().subrange(4, 8) == word_bytes(u.rotation.y),
        u.bytes().subrange(8, 12) == word_bytes(u.rotation.z),
        u.bytes().subrange(12, 16) == word_bytes(u.rotation.w),
        u.bytes().subrange(16, 20) == word_bytes(u.eye.x),
        u.bytes().subrange(20, 24) == word_bytes(u.eye.y),
        u.bytes().subrange(24, 28) == word_bytes(u.eye.z),
        u.bytes().subrange(28, 32) == word_bytes(u.viewport_aspect_ratio),
        u.bytes().subrange(32, 36) == word_bytes(u.max_iterations),
        u.bytes().subrange(36, 40) == word_bytes(u.min_step_size),
        u.bytes().subrange(40, 44) == word_bytes(u.time),
{
    assert(u.bytes().subrange(0, 4) =~= word_bytes(u.rotation.x));
    assert(u.bytes().subrange(4, 8) =~= word_bytes(u.rotation.y));
    assert(u.bytes().subrange(8, 12) =~= word_bytes(u.rotation.z));
    assert(u.bytes().subrange(12, 16) =~= word_bytes(u.rotation.w));
    assert(u.bytes().subrange(16, 20) =~= word_bytes(u.eye.x));
    assert(u.bytes().subrange(20, 24) =~= word_bytes(u.eye.y));
    assert(u.bytes().subrange(24, 28) =~= word_bytes(u.eye.z));
    assert(u.bytes().subrange(28, 32) =~= word_bytes(u.viewport_aspect_ratio));
    assert(u.bytes().subrange(32, 36) =~= word_bytes(u.max_iterations));
    assert(u.bytes().subrange(36, 40) =~= word_bytes(u.min_step_size));
    assert(u.bytes().subrange(40, 44) =~= word_bytes(u.time));
}

/// The two live cameras of a session: a target, moved directly by input
/// events, and a smoothed camera, advanced once per frame toward the target.
/// Input never touches the smoothed camera, and the payload is always built
/// from the smoothed one.
#[derive(Clone, Copy, Debug, PartialEq, Eq, Structural)]
pub struct Viewport {
    /// The target camera, mutated instantly by input.
    pub camera: Camera,
    /// The smoothed camera, advanced each frame toward `camera`.
    pub camera_smoothed: Camera,
}

impl Default for Viewport {
    /// A fresh session: both cameras at the fixed initial camera.
    fn default() -> (v: Viewport)
        ensures
            v.camera == Camera::initial(),
            v.camera_smoothed == Camera::initial(),
    {
        Viewport {
            camera: Camera::default(),
            camera_smoothed: Camera::default(),
        }
    }
}

/// Clamps a frame's elapsed time to the fixed upper bound.
///
/// The argument and result are bit patterns of non-negative 32-bit floats;
/// on those, unsigned order coincides with numeric order, so this is exactly
/// the numeric minimum of the elapsed time and 0.1 seconds.
pub fn clamp_frame_dt(dt: u32) -> (r: u32)
    requires
        dt & F32_SIGN_BIT == 0,
    ensures
        r == (if dt <= DT_CLAMP_BITS { dt } else { DT_CLAMP_BITS }),
        r <= DT_CLAMP_BITS,
{
    if dt <= DT_CLAMP_BITS {
        dt
    } else {
        DT_CLAMP_BITS
    }
}

} // verus!
