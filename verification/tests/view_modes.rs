use gltf_linux_preview::stats::PrimitiveTopology;
use gltf_linux_preview::view::{
    clicked_mode, flat_shading_applies, needs_view_update, next_view_settings, view_plan,
    wireframe_selectable, wireframe_shown, wireframe_supported, AutoRotation, GpuFeatures,
    MaterialVariant, MeshVariant, ViewMode, ViewModeClicks, ViewPlan, ViewSettings,
};

fn none() -> ViewModeClicks {
    ViewModeClicks { rendered: false, textured: false, smooth: false, solid: false, wireframe: false }
}

fn settings(mode: ViewMode, wireframe: bool) -> ViewSettings {
    ViewSettings { mode, wireframe }
}

#[test]
fn defaults_are_rendered_without_wireframe() {
    assert_eq!(ViewSettings::default(), settings(ViewMode::Rendered, false));
    assert_eq!(ViewMode::default(), ViewMode::Rendered);
    assert!(ViewMode::Smooth.allows_wireframe());
    assert!(ViewMode::Solid.allows_wireframe());
}

#[test]
fn wireframe_needs_both_gpu_features() {
    assert!(!wireframe_supported(None));
    assert!(!wireframe_supported(Some(GpuFeatures { polygon_mode_line: true, immediates: false })));
    assert!(!wireframe_supported(Some(GpuFeatures { polygon_mode_line: false, immediates: true })));
    assert!(wireframe_supported(Some(GpuFeatures { polygon_mode_line: true, immediates: true })));
}

#[test]
fn last_clicked_mode_wins() {
    assert_eq!(clicked_mode(ViewMode::Smooth, &none()), ViewMode::Smooth);
    let both = ViewModeClicks { rendered: true, solid: true, ..none() };
    assert_eq!(clicked_mode(ViewMode::Textured, &both), ViewMode::Solid);
    let rendered = ViewModeClicks { rendered: true, ..none() };
    assert_eq!(clicked_mode(ViewMode::Textured, &rendered), ViewMode::Rendered);
}

#[test]
fn wireframe_button_state() {
    assert!(!wireframe_selectable(ViewMode::Rendered, true));
    assert!(!wireframe_selectable(ViewMode::Solid, false));
    assert!(wireframe_selectable(ViewMode::Solid, true));
    assert!(wireframe_shown(true, ViewMode::Textured, true));
    assert!(!wireframe_shown(true, ViewMode::Rendered, true));
    assert!(!wireframe_shown(true, ViewMode::Textured, false));
}

#[test]
fn wireframe_toggles_where_drawable() {
    let on = next_view_settings(settings(ViewMode::Smooth, false), ViewModeClicks { wireframe: true, ..none() }, true);
    assert_eq!(on, settings(ViewMode::Smooth, true));
    let off = next_view_settings(on, ViewModeClicks { wireframe: true, ..none() }, true);
    assert_eq!(off, settings(ViewMode::Smooth, false));
}

#[test]
fn wireframe_click_ignored_where_not_drawable() {
    let rendered = next_view_settings(settings(ViewMode::Rendered, false), ViewModeClicks { wireframe: true, ..none() }, true);
    assert_eq!(rendered, settings(ViewMode::Rendered, false));
    let no_gpu = next_view_settings(settings(ViewMode::Solid, false), ViewModeClicks { wireframe: true, ..none() }, false);
    assert_eq!(no_gpu, settings(ViewMode::Solid, false));
}

#[test]
fn wireframe_dropped_when_gpu_lacks_it() {
    let next = next_view_settings(settings(ViewMode::Textured, true), none(), false);
    assert_eq!(next, settings(ViewMode::Textured, false));
}

#[test]
fn changing_mode_clears_wireframe() {
    let next = next_view_settings(settings(ViewMode::Textured, true), ViewModeClicks { solid: true, ..none() }, true);
    assert_eq!(next, settings(ViewMode::Solid, false));
    let with_click = next_view_settings(
        settings(ViewMode::Textured, false),
        ViewModeClicks { smooth: true, wireframe: true, ..none() },
        true,
    );
    assert_eq!(with_click, settings(ViewMode::Smooth, false));
}

#[test]
fn idle_frame_keeps_settings() {
    let s = settings(ViewMode::Solid, true);
    assert_eq!(next_view_settings(s, none(), true), s);
    let reclick = next_view_settings(s, ViewModeClicks { solid: true, ..none() }, true);
    assert_eq!(reclick, s);
}

#[test]
fn plans_of_each_mode() {
    assert_eq!(
        view_plan(settings(ViewMode::Rendered, true), true),
        ViewPlan { mesh: MeshVariant::AsLoaded, material: MaterialVariant::AsLoaded, wireframe: false }
    );
    assert_eq!(
        view_plan(settings(ViewMode::Textured, true), true),
        ViewPlan { mesh: MeshVariant::AsLoaded, material: MaterialVariant::Unlit, wireframe: true }
    );
    assert_eq!(
        view_plan(settings(ViewMode::Smooth, false), true),
        ViewPlan { mesh: MeshVariant::AsLoaded, material: MaterialVariant::Untextured, wireframe: false }
    );
    assert_eq!(
        view_plan(settings(ViewMode::Solid, true), false),
        ViewPlan { mesh: MeshVariant::Flat, material: MaterialVariant::Untextured, wireframe: false }
    );
}

#[test]
fn updates_and_flat_shading() {
    assert!(!needs_view_update(false, false));
    assert!(needs_view_update(true, false));
    assert!(needs_view_update(false, true));
    assert!(flat_shading_applies(PrimitiveTopology::TriangleList));
    assert!(!flat_shading_applies(PrimitiveTopology::TriangleStrip));
    assert!(!flat_shading_applies(PrimitiveTopology::LineList));
}

#[test]
fn rotation_starts_on_and_toggles() {
    let mut rotation = AutoRotation::default();
    assert!(rotation.0);
    assert_eq!(rotation.label(), "Rotacao: ligada");
    rotation.toggle();
    assert!(!rotation.0);
    assert_eq!(rotation.label(), "Rotacao: desligada");
}
