//! Orbit-camera state.
//!
//! The camera orbits the origin and is described by three 32-bit floats:
//! `yaw` and `pitch` in radians and `radius`, the distance from the origin
//! along the view axis. Each field holds the float's IEEE-754 bit pattern,
//! which lets the payload layout below speak of the exact words the shader
//! receives. The smoothing and trigonometry that produce new float values
//! happen outside this crate; the constants that drive them live here.

use vstd::prelude::*;

verus! {

/// Bit pattern of `1.0f32`, the yaw every session starts from.
pub const DEFAULT_YAW_BITS: u32 = 0x3F80_0000;

/// Bit pattern of `0.5f32`, the pitch every session starts from.
pub const DEFAULT_PITCH_BITS: u32 = 0x3F00_0000;

/// Bit pattern of `4.0f32`, the radius every session starts from.
pub const DEFAULT_RADIUS_BITS: u32 = 0x4080_0000;

/// The sign bit of a 32-bit IEEE-754 value; flipping it negates the value.
pub const F32_SIGN_BIT: u32 = 0x8000_0000;

/// Bit pattern of `+0.0f32`.
pub const F32_ZERO_BITS: u32 = 0x0000_0000;

/// Bit pattern of `0.01f32`: radians of yaw or pitch added to the target
/// camera per unit of pointer-scroll input.
pub const SCROLL_SENSITIVITY_BITS: u32 = 0x3C23_D70A;

/// Bit pattern of `0.9f32`: the stiffness with which the smoothed camera is
/// advanced toward the target camera each frame.
pub const SMOOTHING_STIFFNESS_BITS: u32 = 0x3F66_6666;

/// An orbit camera about the origin; each field holds the bit pattern of a
/// 32-bit float.
#[derive(Clone, Copy, Debug, PartialEq, Eq, Structural)]
pub struct Camera {
    /// Rotation about the vertical axis, in radians.
    pub yaw: u32,
    /// Rotation about the horizontal axis, in radians.
    pub pitch: u32,
    /// Distance from the origin along the view axis; kept positive by its
    /// users so the view never degenerates.
    pub radius: u32,
}

/// A rotation as a quaternion; each component holds the bit pattern of a
/// 32-bit float. The renderer derives it from the camera's yaw and pitch
/// outside this crate and hands it in ready-made.
#[derive(Clone, Copy, Debug, PartialEq, Eq, Structural)]
pub struct QuatBits {
    pub x: u32,
    pub y: u32,
    pub z: u32,
    pub w: u32,
}

/// A three-component vector; each component holds the bit pattern of a
/// 32-bit float.
#[derive(Clone, Copy, Debug, PartialEq, Eq, Structural)]
pub struct Vec3Bits {
    pub x: u32,
    pub y: u32,
    pub z: u32,
}

impl Camera {
    /// The camera every session starts from: yaw 1.0, pitch 0.5, radius 4.0.
    pub open spec fn initial() -> Camera {
        Camera {
            yaw: DEFAULT_YAW_BITS,
            pitch: DEFAULT_PITCH_BITS,
            radius: DEFAULT_RADIUS_BITS,
        }
    }

    /// The bit pattern of the negated radius. The eye sits at `-radius` on
    /// the view axis, and negating an IEEE-754 value flips exactly its sign
    /// bit.
    pub open spec fn negated_radius(self) -> u32 {
        self.radius ^ F32_SIGN_BIT
    }

    /// Where the eye sits relative to the look-at origin: at `-radius` along
    /// the view axis.
    pub open spec fn eye_offset(self) -> Vec3Bits {
        Vec3Bits {
            x: F32_ZERO_BITS,
            y: F32_ZERO_BITS,
            z: self.negated_radius(),
        }
    }

    /// Computes the eye offset of this camera.
    pub fn eye(&self) -> (e: Vec3Bits)
        ensures
            e == self.eye_offset(),
    {
        Vec3Bits {
            x: F32_ZERO_BITS,
            y: F32_ZERO_BITS,
            z: self.radius ^ F32_SIGN_BIT,
        }
    }
}

impl Default for Camera {
    /// The fixed camera every session starts from: yaw 1.0, pitch 0.5,
    /// radius 4.0.
    fn default() -> (c: Camera)
        ensures
            c == Camera::initial(),
    {
        Camera {
            yaw: DEFAULT_YAW_BITS,
            pitch: DEFAULT_PITCH_BITS,
            radius: DEFAULT_RADIUS_BITS,
        }
    }
}

} // verus!
