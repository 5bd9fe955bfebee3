use gltf_linux_preview::playback::AnimationPlayback;
use gltf_linux_preview::stats::{triangle_count, PrimitiveTopology};
use gltf_linux_preview::text::format_bytes;
use gltf_linux_preview::view::ViewMode;

#[test]
fn counts_triangle_topologies() {
    assert_eq!(triangle_count(PrimitiveTopology::TriangleList, 6), 2);
    assert_eq!(triangle_count(PrimitiveTopology::TriangleStrip, 4), 2);
    assert_eq!(triangle_count(PrimitiveTopology::TriangleList, 0), 0);
}

#[test]
fn formats_vram_values() {
    assert_eq!(format_bytes(0), "0 B");
    assert_eq!(format_bytes(1024), "1.0 KiB");
    assert_eq!(format_bytes(1_572_864), "1.5 MiB");
}

#[test]
fn defaults_to_looped_animation_and_rendered_mode() {
    let playback = AnimationPlayback::default();
    assert!(playback.looping);
    assert!(!playback.paused);
    assert_eq!(playback.selected, 0);
    assert!(!ViewMode::Rendered.allows_wireframe());
    assert!(ViewMode::Textured.allows_wireframe());
}
