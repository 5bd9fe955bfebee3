//! The view modes (Rendered, Textured, Smooth, Solid), the wireframe overlay
//! over them, what each mode shows a mesh with, and the automatic rotation.
use vstd::prelude::*;

use crate::stats::PrimitiveTopology;

verus! {

/// The base rendering mode of the viewer.
#[derive(Clone, Copy, Debug, PartialEq, Eq, Structural)]
pub enum ViewMode {
    /// The model's own materials.
    Rendered,
    /// The model's textures without lighting.
    Textured,
    /// A plain lit material over the smooth normals.
    Smooth,
    /// A plain lit material over flat normals.
    Solid,
}

impl Default for ViewMode {
    fn default() -> (mode: Self)
        ensures
            mode == ViewMode::Rendered,
    {
        ViewMode::Rendered
    }
}

/// Whether the wireframe overlay may be drawn over a mode.
pub open spec fn mode_allows_wireframe(mode: ViewMode) -> bool {
    mode != ViewMode::Rendered
}

impl ViewMode {
    /// Whether the wireframe overlay may be drawn over this mode: over every
    /// mode but Rendered.
    pub fn allows_wireframe(self) -> (allowed: bool)
        ensures
            allowed == mode_allows_wireframe(self),
    {
        !matches!(self, ViewMode::Rendered)
    }
}

/// The chosen view mode and whether the wireframe overlay is on.
#[derive(Clone, Copy, Debug, PartialEq, Eq, Structural)]
pub struct ViewSettings {
    pub mode: ViewMode,
    pub wireframe: bool,
}

impl Default for ViewSettings {
    fn default() -> (settings: Self)
        ensures
            settings.mode == ViewMode::Rendered,
            !settings.wireframe,
    {
        ViewSettings { mode: ViewMode::Rendered, wireframe: false }
    }
}

/// The GPU features that drawing wireframes needs.
#[derive(Clone, Copy, Debug, PartialEq, Eq, Structural)]
pub struct GpuFeatures {
    pub polygon_mode_line: bool,
    pub immediates: bool,
}

/// Wireframes can be drawn: there is a render device and it has every
/// feature they need.
pub open spec fn supports_wireframe(device: Option<GpuFeatures>) -> bool {
    match device {
        Some(f) => f.polygon_mode_line && f.immediates,
        None => false,
    }
}

/// Whether the render device, if there is one, can draw wireframes.
pub fn wireframe_supported(device: Option<GpuFeatures>) -> (supported: bool)
    ensures
        supported == supports_wireframe(device),
{
    match device {
        Some(f) => f.polygon_mode_line && f.immediates,
        None => false,
    }
}

/// The buttons of the view-mode bar clicked in one frame.
#[derive(Clone, Copy, Debug, PartialEq, Eq, Structural)]
pub struct ViewModeClicks {
    pub rendered: bool,
    pub textured: bool,
    pub smooth: bool,
    pub solid: bool,
    pub wireframe: bool,
}

/// The mode after the mode buttons of a frame: the last clicked in bar order,
/// else the current one.
pub open spec fn clicked_mode_spec(current: ViewMode, clicks: ViewModeClicks) -> ViewMode {
    if clicks.solid {
        ViewMode::Solid
    } else if clicks.smooth {
        ViewMode::Smooth
    } else if clicks.textured {
        ViewMode::Textured
    } else if clicks.rendered {
        ViewMode::Rendered
    } else {
        current
    }
}

/// The wireframe button can be used: the mode allows the overlay and the GPU
/// can draw it.
pub open spec fn wireframe_usable(mode: ViewMode, available: bool) -> bool {
    mode_allows_wireframe(mode) && available
}

/// The settings after one frame of the view-mode bar. The overlay is dropped
/// where it cannot be drawn, toggled by its button where it can, and cleared
/// whenever the mode changes.
pub open spec fn view_step(current: ViewSettings, clicks: ViewModeClicks, available: bool) -> ViewSettings {
    let mode = clicked_mode_spec(current.mode, clicks);
    let shown = current.wireframe && wireframe_usable(mode, available);
    let toggled = if clicks.wireframe && wireframe_usable(mode, available) {
        !shown
    } else {
        shown
    };
    ViewSettings { mode, wireframe: if mode != current.mode { false } else { toggled } }
}

/// The mode after the mode buttons clicked in a frame.
pub fn clicked_mode(current: ViewMode, clicks: &ViewModeClicks) -> (mode: ViewMode)
    ensures
        mode == clicked_mode_spec(current, *clicks),
{
    let mut mode = current;
    if clicks.rendered {
        mode = ViewMode::Rendered;
    }
    if clicks.textured {
        mode = ViewMode::Textured;
    }
    if clicks.smooth {
        mode = ViewMode::Smooth;
    }
    if clicks.solid {
        mode = ViewMode::Solid;
    }
    mode
}

/// Whether the wireframe button is enabled for a mode.
pub fn wireframe_selectable(mode: ViewMode, available: bool) -> (usable: bool)
    ensures
        usable == wireframe_usable(mode, available),
{
    mode.allows_wireframe() && available
}

/// Whether the wireframe button shows the overlay as on, for the mode being
/// drawn.
pub fn wireframe_shown(wireframe: bool, mode: ViewMode, available: bool) -> (shown: bool)
    ensures
        shown == (wireframe && wireframe_usable(mode, available)),
{
    wireframe && wireframe_selectable(mode, available)
}

/// The view settings after a frame in which `clicks` were made.
pub fn next_view_settings(current: ViewSettings, clicks: ViewModeClicks, available: bool) -> (next: ViewSettings)
    ensures
        next == view_step(current, clicks, available),
{
    let mode = clicked_mode(current.mode, &clicks);
    let mut wireframe = wireframe_shown(current.wireframe, mode, available);
    if clicks.wireframe && wireframe_selectable(mode, available) {
        wireframe = !wireframe;
    }
    if mode != current.mode {
        wireframe = false;
    }
    ViewSettings { mode, wireframe }
}

/// Which mesh an entity is shown with.
#[derive(Clone, Copy, Debug, PartialEq, Eq, Structural)]
pub enum MeshVariant {
    /// The mesh it was loaded with.
    AsLoaded,
    /// A copy with duplicated vertices and flat normals.
    Flat,
}

/// Which material an entity is shown with.
#[derive(Clone, Copy, Debug, PartialEq, Eq, Structural)]
pub enum MaterialVariant {
    /// The material it was loaded with.
    AsLoaded,
    /// An unlit copy of it.
    Unlit,
    /// The plain shared material.
    Untextured,
}

/// How the meshes of the model are shown.
#[derive(Clone, Copy, Debug, PartialEq, Eq, Structural)]
pub struct ViewPlan {
    pub mesh: MeshVariant,
    pub material: MaterialVariant,
    pub wireframe: bool,
}

pub open spec fn view_plan_spec(settings: ViewSettings, available: bool) -> ViewPlan {
    ViewPlan {
        mesh: if settings.mode == ViewMode::Solid {
            MeshVariant::Flat
        } else {
            MeshVariant::AsLoaded
        },
        material: match settings.mode {
            ViewMode::Rendered => MaterialVariant::AsLoaded,
            ViewMode::Textured => MaterialVariant::Unlit,
            _ => MaterialVariant::Untextured,
        },
        wireframe: settings.wireframe && mode_allows_wireframe(settings.mode) && available,
    }
}

/// How a mesh is shown under the settings: flat-shaded in Solid; with its
/// own material in Rendered, an unlit copy in Textured, the plain one in
/// Smooth and Solid; with the overlay when it is on, allowed and drawable.
pub fn view_plan(settings: ViewSettings, available: bool) -> (plan: ViewPlan)
    ensures
        plan == view_plan_spec(settings, available),
{
    let mesh = if settings.mode == ViewMode::Solid {
        MeshVariant::Flat
    } else {
        MeshVariant::AsLoaded
    };
    let material = match settings.mode {
        ViewMode::Rendered => MaterialVariant::AsLoaded,
        ViewMode::Textured => MaterialVariant::Unlit,
        ViewMode::Smooth | ViewMode::Solid => MaterialVariant::Untextured,
    };
    ViewPlan {
        mesh,
        material,
        wireframe: settings.wireframe && settings.mode.allows_wireframe() && available,
    }
}

/// A mesh is shown anew when the settings changed or it was just recorded.
pub fn needs_view_update(settings_changed: bool, newly_recorded: bool) -> (update: bool)
    ensures
        update == (settings_changed || newly_recorded),
{
    settings_changed || newly_recorded
}

/// Flat normals are made only for triangle lists.
pub fn flat_shading_applies(topology: PrimitiveTopology) -> (applies: bool)
    ensures
        applies == (topology == PrimitiveTopology::TriangleList),
{
    matches!(topology, PrimitiveTopology::TriangleList)
}

/// Whether the model spins on its own.
#[derive(Clone, Copy, Debug, PartialEq, Eq, Structural)]
pub struct AutoRotation(pub bool);

impl Default for AutoRotation {
    fn default() -> (rotation: Self)
        ensures
            rotation.0,
    {
        AutoRotation(true)
    }
}

impl AutoRotation {
    /// Switches the rotation on or off.
    pub fn toggle(&mut self)
        ensures
            final(self).0 == !old(self).0,
    {
        self.0 = !self.0;
    }

    /// The caption of the rotation button.
    pub fn label(&self) -> (label: &'static str)
        ensures
            label@ == (if self.0 {
                "Rotacao: ligada"@
            } else {
                "Rotacao: desligada"@
            }),
    {
        if self.0 {
            "Rotacao: ligada"
        } else {
            "Rotacao: desligada"
        }
    }
}

/// The settings left by a frame never show a wireframe that cannot be
/// drawn: the overlay is on only over a mode that allows it, on a GPU that
/// supports it.
pub proof fn law_wireframe_only_where_drawable(current: ViewSettings, clicks: ViewModeClicks, available: bool)
    ensures
        view_step(current, clicks, available).wireframe ==> wireframe_usable(
            view_step(current, clicks, available).mode,
            available,
        ),
{
}

/// Switching to another mode turns the wireframe overlay off.
pub proof fn law_mode_change_clears_wireframe(current: ViewSettings, clicks: ViewModeClicks, available: bool)
    requires
        view_step(current, clicks, available).mode != current.mode,
    ensures
        !view_step(current, clicks, available).wireframe,
{
}

/// A frame without clicks leaves drawable settings as they are.
pub proof fn law_idle_frame_keeps_settings(current: ViewSettings, available: bool)
    requires
        current.wireframe ==> wireframe_usable(current.mode, available),
    ensures
        view_step(
            current,
            ViewModeClicks { rendered: false, textured: false, smooth: false, solid: false, wireframe: false },
            available,
        ) == current,
{
}

/// Clicking the wireframe button alone, where the overlay can be drawn,
/// switches it on or off and keeps the mode.
pub proof fn law_wireframe_button_toggles(current: ViewSettings, available: bool)
    requires
        wireframe_usable(current.mode, available),
    ensures
        view_step(
            current,
            ViewModeClicks { rendered: false, textured: false, smooth: false, solid: false, wireframe: true },
            available,
        ) == (ViewSettings { mode: current.mode, wireframe: !current.wireframe }),
{
}

/// The Rendered mode shows the model as loaded: its own meshes and
/// materials, never a wireframe.
pub proof fn law_rendered_shows_model_as_loaded(settings: ViewSettings, available: bool)
    requires
        settings.mode == ViewMode::Rendered,
    ensures
        view_plan_spec(settings, available) == (ViewPlan {
            mesh: MeshVariant::AsLoaded,
            material: MaterialVariant::AsLoaded,
            wireframe: false,
        }),
{
}

/// A wireframe is drawn only when it is on, over a mode that allows it, on a
/// GPU that can draw it.
pub proof fn law_plan_wireframe_needs_all(settings: ViewSettings, available: bool)
    ensures
        view_plan_spec(settings, available).wireframe <==> (settings.wireframe && wireframe_usable(
            settings.mode,
            available,
        )),
{
}

/// The overlay drawn is the overlay chosen: after any frame of the bar, the
/// meshes are shown with a wireframe exactly when the settings have it on
/// (the GPU support being the same when drawing as when choosing).
pub proof fn law_drawn_wireframe_is_chosen(current: ViewSettings, clicks: ViewModeClicks, available: bool)
    ensures
        view_plan_spec(view_step(current, clicks, available), available).wireframe == view_step(
            current,
            clicks,
            available,
        ).wireframe,
{
}

/// No button of the bar clicked.
pub open spec fn no_view_clicks() -> ViewModeClicks {
    ViewModeClicks { rendered: false, textured: false, smooth: false, solid: false, wireframe: false }
}

/// Clicking one mode button alone selects that button's mode, whatever the
/// mode was; clicking none keeps it.
pub proof fn law_mode_button_selects_its_mode(current: ViewSettings, available: bool)
    ensures
        view_step(current, ViewModeClicks { rendered: true, ..no_view_clicks() }, available).mode
            == ViewMode::Rendered,
        view_step(current, ViewModeClicks { textured: true, ..no_view_clicks() }, available).mode
            == ViewMode::Textured,
        view_step(current, ViewModeClicks { smooth: true, ..no_view_clicks() }, available).mode
            == ViewMode::Smooth,
        view_step(current, ViewModeClicks { solid: true, ..no_view_clicks() }, available).mode
            == ViewMode::Solid,
        view_step(current, no_view_clicks(), available).mode == current.mode,
        view_step(current, ViewModeClicks { wireframe: true, ..no_view_clicks() }, available).mode
            == current.mode,
{
}

/// The mesh and the material a mesh is shown with depend on the mode alone,
/// not on the wireframe setting nor on GPU support.
pub proof fn law_variants_follow_mode(s1: ViewSettings, a1: bool, s2: ViewSettings, a2: bool)
    requires
        s1.mode == s2.mode,
    ensures
        view_plan_spec(s1, a1).mesh == view_plan_spec(s2, a2).mesh,
        view_plan_spec(s1, a1).material == view_plan_spec(s2, a2).material,
{
}

/// Each mode's mesh and material: Rendered the loaded ones, Textured the
/// loaded mesh with an unlit material, Smooth the loaded mesh with the plain
/// material, Solid the flat mesh with the plain material.
pub proof fn law_mode_variants(wireframe: bool, available: bool)
    ensures
        ({
            let plan = |mode: ViewMode| view_plan_spec(ViewSettings { mode, wireframe }, available);
            &&& plan(ViewMode::Rendered).mesh == MeshVariant::AsLoaded
            &&& plan(ViewMode::Rendered).material == MaterialVariant::AsLoaded
            &&& plan(ViewMode::Textured).mesh == MeshVariant::AsLoaded
            &&& plan(ViewMode::Textured).material == MaterialVariant::Unlit
            &&& plan(ViewMode::Smooth).mesh == MeshVariant::AsLoaded
            &&& plan(ViewMode::Smooth).material == MaterialVariant::Untextured
            &&& plan(ViewMode::Solid).mesh == MeshVariant::Flat
            &&& plan(ViewMode::Solid).material == MaterialVariant::Untextured
        }),
{
}

/// Wireframes need a render device with both the line polygon mode and
/// immediates.
pub proof fn law_wireframe_needs_both_features(device: Option<GpuFeatures>)
    ensures
        device is None ==> !supports_wireframe(device),
        device matches Some(f) ==> (supports_wireframe(device) <==> (f.polygon_mode_line
            && f.immediates)),
{
}

/// Of several mode buttons clicked in one frame, the one furthest along the
/// bar (Rendered, Textured, Smooth, Solid) wins.
pub proof fn law_last_mode_button_wins(current: ViewMode, clicks: ViewModeClicks)
    ensures
        clicks.solid ==> clicked_mode_spec(current, clicks) == ViewMode::Solid,
        !clicks.solid && clicks.smooth ==> clicked_mode_spec(current, clicks) == ViewMode::Smooth,
        !clicks.solid && !clicks.smooth && clicks.textured ==> clicked_mode_spec(current, clicks)
            == ViewMode::Textured,
        !clicks.solid && !clicks.smooth && !clicks.textured && clicks.rendered ==> clicked_mode_spec(
            current,
            clicks,
        ) == ViewMode::Rendered,
{
}

} // verus!
