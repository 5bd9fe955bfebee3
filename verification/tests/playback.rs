use gltf_linux_preview::assets::AssetKey;
use gltf_linux_preview::playback::{
    clip_display_names, AnimationPlayback, AnimationStart, NamedClip, PlaybackActions, PlaybackClicks,
};

fn clicks(selected: Option<usize>, toggle_pause: bool, toggle_loop: bool) -> PlaybackClicks {
    PlaybackClicks { selected, toggle_pause, toggle_loop }
}

fn installed(nodes: Vec<usize>) -> AnimationPlayback {
    let mut playback = AnimationPlayback::default();
    let names = nodes.iter().map(|n| format!("clip {n}")).collect();
    playback.install_animations(names, nodes);
    playback
}

#[test]
fn setup_waits_for_gltf_and_players() {
    let mut playback = AnimationPlayback::default();
    assert!(!playback.setup_animation_graph(None, true));
    assert!(!playback.initialized);
    assert!(!playback.setup_animation_graph(Some(2), false));
    assert!(!playback.initialized);
    assert!(playback.setup_animation_graph(Some(2), true));
    assert!(!playback.initialized);
}

#[test]
fn setup_marks_models_without_clips() {
    let mut playback = AnimationPlayback::default();
    assert!(!playback.setup_animation_graph(Some(0), false));
    assert!(playback.initialized);
    assert!(!playback.has_animation);
    assert!(!playback.setup_animation_graph(Some(3), true));
}

#[test]
fn installed_clips_start_first_and_looping() {
    let playback = installed(vec![4, 5]);
    assert!(playback.initialized && playback.has_animation);
    assert_eq!(playback.selected, 0);
    assert_eq!(
        playback.start_command(),
        Some(AnimationStart { node: 4, repeat: true, pause: false })
    );
    assert_eq!(playback.selected_label(), "Selecionada: clip 4");
}

#[test]
fn no_clip_means_no_start() {
    let playback = AnimationPlayback::default();
    assert_eq!(playback.start_command(), None);
    assert_eq!(playback.selected_name(), "Animacao");
}

#[test]
fn idle_frame_does_nothing() {
    let mut playback = installed(vec![1, 2]);
    let actions = playback.apply_clicks(clicks(None, false, false));
    assert_eq!(actions, PlaybackActions { start: None, pause: None });
    assert_eq!(playback.selected, 0);
    assert!(playback.looping && !playback.paused);
}

#[test]
fn picking_a_clip_restarts_it() {
    let mut playback = installed(vec![1, 2]);
    let actions = playback.apply_clicks(clicks(Some(1), false, false));
    assert_eq!(playback.selected, 1);
    assert_eq!(
        actions,
        PlaybackActions { start: Some(AnimationStart { node: 2, repeat: true, pause: false }), pause: None }
    );
}

#[test]
fn pause_toggles_without_restart() {
    let mut playback = installed(vec![1]);
    assert_eq!(playback.play_label(), "Pausar");
    let actions = playback.apply_clicks(clicks(None, true, false));
    assert_eq!(actions, PlaybackActions { start: None, pause: Some(true) });
    assert!(playback.paused);
    assert_eq!(playback.play_label(), "Reproduzir");
    let actions = playback.apply_clicks(clicks(None, true, false));
    assert_eq!(actions, PlaybackActions { start: None, pause: Some(false) });
    assert!(!playback.paused);
}

#[test]
fn loop_toggle_restarts_with_new_setting() {
    let mut playback = installed(vec![3]);
    let actions = playback.apply_clicks(clicks(None, false, true));
    assert!(!playback.looping);
    assert_eq!(
        actions.start,
        Some(AnimationStart { node: 3, repeat: false, pause: false })
    );
}

#[test]
fn restart_uses_pause_state_before_the_frame() {
    let mut playback = installed(vec![3, 9]);
    let actions = playback.apply_clicks(clicks(Some(1), true, false));
    assert_eq!(
        actions,
        PlaybackActions { start: Some(AnimationStart { node: 9, repeat: true, pause: false }), pause: Some(true) }
    );
}

#[test]
fn clip_names_prefer_gltf_names() {
    let clips = vec![AssetKey::Index(10), AssetKey::Index(11), AssetKey::Uuid(12)];
    let named = vec![
        NamedClip { name: "Walk".to_string(), clip: AssetKey::Index(11) },
        NamedClip { name: "Run".to_string(), clip: AssetKey::Index(11) },
        NamedClip { name: "Idle".to_string(), clip: AssetKey::Uuid(12) },
    ];
    let names = clip_display_names(&clips, &named);
    assert_eq!(names, vec!["Animacao 1".to_string(), "Walk".to_string(), "Idle".to_string()]);
    assert!(clip_display_names(&Vec::new(), &named).is_empty());
}
