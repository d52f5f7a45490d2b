//! Owned-surface rendering: the per-frame uniform payload and the
//! bookkeeping that ties the depth buffer to the configured surface.
//!
//! The GPU work itself (surface, device, pipeline, draw) lives outside this
//! crate; what is kept here is everything the renderer decides and computes:
//! the exact bytes of the payload the shader reads, and how a resize request
//! changes the recorded surface and depth-buffer dimensions.

use vstd::prelude::*;

use crate::bytes::push_word;
use crate::bytes::word_bytes;
use crate::camera::Camera;
use crate::camera::QuatBits;
use crate::camera::Vec3Bits;

verus! {

/// Bytes of payload data in the owned-mode uniform: rotation (4 words),
/// eye (3 words), aspect ratio and time (1 word each).
pub const UNIFORM_DATA_BYTES: u64 = 36;

/// The smallest buffer a uniform binding may be backed by.
pub const MIN_UNIFORM_BINDING_BYTES: u64 = 48;

/// Size of the encoded owned-mode payload: the data, padded with explicit
/// zeros up to the minimum uniform binding.
pub const UNIFORM_BUFFER_BYTES: u64 = 48;

/// The per-frame payload written to the uniform buffer in owned-surface
/// mode. Field order is a contract with the shader and must not change.
/// Every field holds the bit pattern of a 32-bit float.
#[derive(Clone, Copy, Debug, PartialEq, Eq, Structural)]
pub struct Uniforms {
    /// Rotation of the view, as a quaternion.
    pub rotation: QuatBits,
    /// Offset of the eye from the look-at origin.
    pub eye: Vec3Bits,
    /// Width over height of the output, as seen by the shader.
    pub viewport_aspect_ratio: u32,
    /// Seconds elapsed since the pipeline was created.
    pub time: u32,
}

impl Uniforms {
    /// The payload for one frame. The eye is placed at `-radius` on the view
    /// axis of the given camera; rotation, aspect ratio and time are taken
    /// as handed in.
    pub fn from_camera(
        rotation: QuatBits,
        camera: &Camera,
        viewport_aspect_ratio: u32,
        time: u32,
    ) -> (u: Uniforms)
        ensures
            u.rotation == rotation,
            u.eye == camera.eye_offset(),
            u.viewport_aspect_ratio == viewport_aspect_ratio,
            u.time == time,
    {
        Uniforms {
            rotation,
            eye: camera.eye(),
            viewport_aspect_ratio,
            time,
        }
    }

    /// The wire form of the payload: rotation, eye, aspect ratio and time,
    /// each word little-endian, in that order, followed by three words of
    /// explicit zero padding up to the minimum uniform binding size.
    pub open spec fn bytes(self) -> Seq<u8> {
        word_bytes(self.rotation.x) + word_bytes(self.rotation.y) + word_bytes(self.rotation.z)
            + word_bytes(self.rotation.w) + word_bytes(self.eye.x) + word_bytes(self.eye.y)
            + word_bytes(self.eye.z) + word_bytes(self.viewport_aspect_ratio)
            + word_bytes(self.time) + word_bytes(0) + word_bytes(0) + word_bytes(0)
    }

    /// Encodes the payload for the uniform-buffer write.
    pub fn encode(&self) -> (out: Vec<u8>)
        ensures
            out@ == self.bytes(),
            out@.len() == UNIFORM_BUFFER_BYTES,
    {
        let mut out: Vec<u8> = Vec::new();
        push_word(&mut out, self.rotation.x);
        push_word(&mut out, self.rotation.y);
        push_word(&mut out, self.rotation.z);
        push_word(&mut out, self.rotation.w);
        push_word(&mut out, self.eye.x);
        push_word(&mut out, self.eye.y);
        push_word(&mut out, self.eye.z);
        push_word(&mut out, self.viewport_aspect_ratio);
        push_word(&mut out, self.time);
        push_word(&mut out, 0);
        push_word(&mut out, 0);
        push_word(&mut out, 0);
        proof {
            assert(out@ =~= self.bytes());
        }
        out
    }
}

/// Law: the owned-mode wire layout, field by field. Each field of the
/// payload sits at a fixed byte offset — rotation at 0, eye at 16, aspect
/// ratio at 28, time at 32, zero padding from 36 — and moving any of them
/// is a breaking change to the shader contract.
pub proof fn lemma_owned_wire_layout(u: Uniforms)
    ensures
        u.bytes().len() == UNIFORM_BUFFER_BYTES,
        u.bytes().subrange(0, 4) == word_bytes(u.rotation.x),
        u.bytes().subrange(4, 8) == word_bytes(u.rotation.y),
        u.bytes().subrange(8, 12) == word_bytes(u.rotation.z),
        u.bytes().subrange(12, 16) == word_bytes(u.rotation.w),
        u.bytes().subrange(16, 20) == word_bytes(u.eye.x),
        u.bytes().subrange(20, 24) == word_bytes(u.eye.y),
        u.bytes().subrange(24, 28) == word_bytes(u.eye.z),
        u.bytes().subrange(28, 32) == word_bytes(u.viewport_aspect_ratio),
        u.bytes().subrange(32, 36) == word_bytes(u.time),
        u.bytes().subrange(36, 48) == word_bytes(0) + word_bytes(0) + word_bytes(0),
{
    assert(u.bytes().subrange(0, 4) =~= word_bytes(u.rotation.x));
    assert(u.bytes().subrange(4, 8) =~= word_bytes(u.rotation.y));
    assert(u.bytes().subrange(8, 12) =~= word_bytes(u.rotation.z));
    assert(u.bytes().subrange(12, 16) =~= word_bytes(u.rotation.w));
    assert(u.bytes().subrange(16, 20) =~= word_bytes(u.eye.x));
    assert(u.bytes().subrange(20, 24) =~= word_bytes(u.eye.y));
    assert(u.bytes().subrange(24, 28) =~= word_bytes(u.eye.z));
    assert(u.bytes().subrange(28, 32) =~= word_bytes(u.viewport_aspect_ratio));
    assert(u.bytes().subrange(32, 36) =~= word_bytes(u.time));
    assert(u.bytes().subrange(36, 48) =~= word_bytes(0) + word_bytes(0) + word_bytes(0));
}

/// Width and height of an output target, in pixels.
#[derive(Clone, Copy, Debug, PartialEq, Eq, Structural)]
pub struct SurfaceExtent {
    pub width: u32,
    pub height: u32,
}

/// The renderer's recorded dimensions: what the surface is configured with
/// and what the depth buffer was created at. The GPU resources these
/// describe are owned outside this crate; their owner reconfigures them
/// exactly when `resize` says so, which keeps this record faithful.
#[derive(Clone, Copy, Debug, PartialEq, Eq, Structural)]
pub struct Renderer {
    /// Dimensions the output surface is configured with.
    pub config: SurfaceExtent,
    /// Dimensions the depth buffer was created at.
    pub depth: SurfaceExtent,
}

impl Renderer {
    /// The renderer's invariant: the depth buffer's dimensions always equal
    /// the configured output dimensions.
    pub open spec fn depth_matches_surface(self) -> bool {
        self.depth == self.config
    }

    /// The state a resize request leads to: a zero dimension is a transient
    /// minimized state and changes nothing; anything else moves surface and
    /// depth buffer together to the new dimensions.
    pub open spec fn resize_spec(self, width: u32, height: u32) -> Renderer {
        if width == 0 || height == 0 {
            self
        } else {
            Renderer {
                config: SurfaceExtent { width, height },
                depth: SurfaceExtent { width, height },
            }
        }
    }

    /// The record at session start: surface and depth buffer both at the
    /// initial output dimensions.
    pub fn new(width: u32, height: u32) -> (r: Renderer)
        ensures
            r.config == (SurfaceExtent { width, height }),
            r.depth_matches_surface(),
    {
        Renderer {
            config: SurfaceExtent { width, height },
            depth: SurfaceExtent { width, height },
        }
    }

    /// Handles an output-dimension change. Returns whether the surface must
    /// be reconfigured and the depth buffer recreated; when either dimension
    /// is zero nothing changes and nothing is to be recreated.
    pub fn resize(&mut self, width: u32, height: u32) -> (reconfigured: bool)
        ensures
            *final(self) == old(self).resize_spec(width, height),
            reconfigured == (width != 0 && height != 0),
            !reconfigured ==> *final(self) == *old(self),
            reconfigured ==> final(self).config == (SurfaceExtent { width, height }),
            old(self).depth_matches_surface() ==> final(self).depth_matches_surface(),
    {
        if width == 0 || height == 0 {
            return false;
        }
        self.config = SurfaceExtent { width, height };
        self.depth = SurfaceExtent { width, height };
        true
    }
}

/// Law: a resize is idempotent. Applying the same dimensions twice in a row
/// ends in the very state one application ends in; the second application is
/// at worst a harmless re-creation of the same resources.
pub proof fn lemma_resize_idempotent(r: Renderer, width: u32, height: u32)
    ensures
        r.resize_spec(width, height).resize_spec(width, height) == r.resize_spec(width, height),
{
}

/// Law: a resize never breaks the renderer's invariant. A zero-area request
/// leaves the old record, and any other request moves depth buffer and
/// surface together.
pub proof fn lemma_resize_preserves_invariant(r: Renderer, width: u32, height: u32)
    requires
        r.depth_matches_surface(),
    ensures
        r.resize_spec(width, height).depth_matches_surface(),
{
}

} // verus!
