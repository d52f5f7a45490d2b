//! The fixed facts a render pipeline is built from, in either deployment
//! shape.
//!
//! Both shapes draw one full-screen quad of six vertices in a single
//! instance, with no vertex buffers: positions come from the vertex index
//! alone. They differ in culling, depth testing and how the payload reaches
//! the shader; those decisions are recorded here, and the GPU descriptors
//! built outside this crate follow them.

use vstd::prelude::*;

use crate::render::MIN_UNIFORM_BINDING_BYTES;
use crate::render::UNIFORM_BUFFER_BYTES;
use crate::render::UNIFORM_DATA_BYTES;
use crate::viewport::PUSH_CONSTANT_BYTES;

verus! {

/// Vertices of the full-screen quad: two triangles.
pub const QUAD_VERTEX_COUNT: u32 = 6;

/// Which deployment shape the pipeline serves.
#[derive(Clone, Copy, Debug, PartialEq, Eq, Structural)]
pub enum PipelineMode {
    /// The session owns its surface, presents itself, culls back faces and
    /// tests depth.
    OwnedSurface,
    /// The session draws one overlay quad into a host-owned render pass;
    /// with no depth competition it neither culls nor tests depth.
    Embedded,
}

/// What a pipeline of a given mode is built with.
#[derive(Clone, Copy, Debug, PartialEq, Eq, Structural)]
pub struct PipelineSettings {
    /// Vertices per draw call.
    pub vertex_count: u32,
    /// Instances per draw call.
    pub instance_count: u32,
    /// Whether back faces are culled.
    pub cull_back_faces: bool,
    /// Whether a depth buffer is attached and tested.
    pub depth_test: bool,
    /// Whether the payload travels as push constants rather than in a
    /// uniform buffer.
    pub payload_via_push_constants: bool,
    /// Bytes of the payload binding: the padded uniform buffer in owned
    /// mode, the push-constant range in embedded mode.
    pub payload_bytes: u64,
}

/// The settings either mode builds its pipeline from.
pub fn settings(mode: PipelineMode) -> (s: PipelineSettings)
    ensures
        s.vertex_count == QUAD_VERTEX_COUNT,
        s.instance_count == 1,
        mode == PipelineMode::OwnedSurface ==> s.cull_back_faces && s.depth_test
            && !s.payload_via_push_constants && s.payload_bytes == UNIFORM_BUFFER_BYTES,
        mode == PipelineMode::Embedded ==> !s.cull_back_faces && !s.depth_test
            && s.payload_via_push_constants && s.payload_bytes == PUSH_CONSTANT_BYTES,
{
    match mode {
        PipelineMode::OwnedSurface => PipelineSettings {
            vertex_count: QUAD_VERTEX_COUNT,
            instance_count: 1,
            cull_back_faces: true,
            depth_test: true,
            payload_via_push_constants: false,
            payload_bytes: UNIFORM_BUFFER_BYTES,
        },
        PipelineMode::Embedded => PipelineSettings {
            vertex_count: QUAD_VERTEX_COUNT,
            instance_count: 1,
            cull_back_faces: false,
            depth_test: false,
            payload_via_push_constants: true,
            payload_bytes: PUSH_CONSTANT_BYTES,
        },
    }
}

/// The size the owned-mode uniform buffer is allocated with: the payload
/// data, raised to the minimum uniform binding where smaller.
pub fn uniform_buffer_size() -> (n: u64)
    ensures
        n >= UNIFORM_DATA_BYTES,
        n >= MIN_UNIFORM_BINDING_BYTES,
        n == UNIFORM_BUFFER_BYTES,
{
    if UNIFORM_DATA_BYTES < MIN_UNIFORM_BINDING_BYTES {
        MIN_UNIFORM_BINDING_BYTES
    } else {
        UNIFORM_DATA_BYTES
    }
}

} // verus!
