use gltf_linux_preview::assets::{AssetKey, HandleCache};
use gltf_linux_preview::paths::{assets_dir, determine_asset_root, is_obj_path, RootCandidate};
use gltf_linux_preview::thumbnail::ThumbnailState;

#[test]
fn thumbnail_camera_renders_two_frames() {
    let mut state = ThumbnailState::default();
    assert!(!state.should_spawn(true, true));
    state.request();
    assert!(!state.should_spawn(false, true));
    assert!(!state.should_spawn(true, false));
    assert!(state.should_spawn(true, true));
    state.on_spawned(42);
    assert_eq!(state, ThumbnailState { requested: false, camera: Some(42), frames_remaining: 2 });
    assert!(!state.should_spawn(true, true));
    assert_eq!(state.stop_thumbnail_camera(), None);
    assert_eq!(state.camera, Some(42));
    assert_eq!(state.stop_thumbnail_camera(), Some(42));
    assert_eq!(state, ThumbnailState { requested: false, camera: None, frames_remaining: 0 });
    assert_eq!(state.stop_thumbnail_camera(), None);
}

#[test]
fn new_request_while_live_waits_for_the_camera() {
    let mut state = ThumbnailState::default();
    state.request();
    state.on_spawned(7);
    state.request();
    assert!(!state.should_spawn(true, true));
    state.stop_thumbnail_camera();
    state.stop_thumbnail_camera();
    assert!(state.should_spawn(true, true));
}

#[test]
fn obj_paths_by_extension() {
    assert!(is_obj_path("models/fixtures/cube-obj/cube-tex.obj"));
    assert!(is_obj_path("MODEL.OBJ"));
    assert!(is_obj_path("a/b.Obj"));
    assert!(!is_obj_path("models/fixtures/fox-glb/Fox.glb"));
    assert!(!is_obj_path("models/fixtures/box-textured/BoxTextured.gltf"));
    assert!(!is_obj_path("obj"));
    assert!(!is_obj_path(".obj"));
    assert!(!is_obj_path("model.objx"));
    assert!(!is_obj_path("model.obj.gltf"));
}

#[test]
fn asset_directories() {
    assert_eq!(assets_dir("/home/user"), "/home/user/assets");
    assert_eq!(assets_dir("."), "./assets");
    let cwd = Some(RootCandidate { path: "/work/assets".to_string(), is_dir: true });
    let exe = Some(RootCandidate { path: "/opt/app/assets".to_string(), is_dir: true });
    assert_eq!(determine_asset_root(cwd, exe, Some("/work".to_string())), "/work/assets");
    let cwd_missing = Some(RootCandidate { path: "/work/assets".to_string(), is_dir: false });
    let exe = Some(RootCandidate { path: "/opt/app/assets".to_string(), is_dir: true });
    assert_eq!(determine_asset_root(cwd_missing, exe, Some("/work".to_string())), "/opt/app/assets");
    let cwd_missing = Some(RootCandidate { path: "/work/assets".to_string(), is_dir: false });
    let exe_missing = Some(RootCandidate { path: "/opt/app/assets".to_string(), is_dir: false });
    assert_eq!(determine_asset_root(cwd_missing, exe_missing, Some("/work".to_string())), "/work/assets");
    assert_eq!(determine_asset_root(None, None, None), "./assets");
}

#[test]
fn cache_reads_back_what_was_written() {
    let mut cache: HandleCache<&str> = HandleCache::new();
    assert_eq!(cache.get(&AssetKey::Index(1)), None);
    cache.insert(AssetKey::Index(1), "unlit-1");
    cache.insert(AssetKey::Uuid(1), "unlit-u1");
    assert_eq!(cache.get(&AssetKey::Index(1)), Some(&"unlit-1"));
    assert_eq!(cache.get(&AssetKey::Uuid(1)), Some(&"unlit-u1"));
    cache.insert(AssetKey::Index(1), "unlit-1b");
    assert_eq!(cache.get(&AssetKey::Index(1)), Some(&"unlit-1b"));
    assert_eq!(cache.get(&AssetKey::Uuid(1)), Some(&"unlit-u1"));
    assert_eq!(cache.get(&AssetKey::Index(2)), None);
}
