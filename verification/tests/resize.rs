//! Tests of resize handling, the frame-delta clamp and the pipeline facts.

use orbitview::pipeline;
use orbitview::pipeline::PipelineMode;
use orbitview::render::Renderer;
use orbitview::render::SurfaceExtent;
use orbitview::viewport::clamp_frame_dt;
use orbitview::viewport::DT_CLAMP_BITS;

#[test]
fn zero_area_resize_is_a_no_op() {
    let mut r = Renderer::new(800, 600);
    let before = r;

    assert!(!r.resize(0, 600));
    assert_eq!(r, before);

    assert!(!r.resize(800, 0));
    assert_eq!(r, before);

    assert!(!r.resize(0, 0));
    assert_eq!(r, before);
}

#[test]
fn resize_sequence_tracks_last_nonzero_request() {
    let mut r = Renderer::new(640, 480);

    assert!(r.resize(800, 600));
    assert_eq!(r.config, SurfaceExtent { width: 800, height: 600 });
    assert_eq!(r.depth, SurfaceExtent { width: 800, height: 600 });

    assert!(r.resize(1024, 768));
    assert_eq!(r.depth, SurfaceExtent { width: 1024, height: 768 });
    assert_eq!(r.config, r.depth);

    // Reapplying the same resize is idempotent: the second call asks for a
    // harmless re-create and ends in the same state.
    let before = r;
    assert!(r.resize(1024, 768));
    assert_eq!(r, before);
}

#[test]
fn depth_buffer_follows_surface_through_mixed_requests() {
    let mut r = Renderer::new(320, 200);
    r.resize(1920, 1080);
    r.resize(0, 1080);
    assert_eq!(r.config, SurfaceExtent { width: 1920, height: 1080 });
    assert_eq!(r.depth, r.config);
}

#[test]
fn frame_delta_is_clamped_to_a_tenth_of_a_second() {
    for dt in [0.0f32, 0.004, 0.016, 0.05, 0.099, 0.1, 0.11, 0.5, 3.0, 1.0e9] {
        let clamped = clamp_frame_dt(dt.to_bits());
        assert_eq!(f32::from_bits(clamped), dt.min(0.1));
        assert!(clamped <= DT_CLAMP_BITS);
    }
}

#[test]
fn pipeline_settings_per_mode() {
    let owned = pipeline::settings(PipelineMode::OwnedSurface);
    assert_eq!(owned.vertex_count, 6);
    assert_eq!(owned.instance_count, 1);
    assert!(owned.cull_back_faces);
    assert!(owned.depth_test);
    assert!(!owned.payload_via_push_constants);
    assert_eq!(owned.payload_bytes, 48);

    let embedded = pipeline::settings(PipelineMode::Embedded);
    assert_eq!(embedded.vertex_count, 6);
    assert_eq!(embedded.instance_count, 1);
    assert!(!embedded.cull_back_faces);
    assert!(!embedded.depth_test);
    assert!(embedded.payload_via_push_constants);
    assert_eq!(embedded.payload_bytes, 44);

    assert_eq!(pipeline::uniform_buffer_size(), 48);
}
