use mygame_core::assets::{
    check_asset_loading, level_loaded, load_level, on_level_change, postprocess_assets,
    CurrentLevel, LevelState, LoadLevelRequest, LoadingAssets,
};
use mygame_core::protocol::Level;

#[test]
fn a_load_request_records_the_level_and_begins_loading() {
    let mut level_to_load = Level::Void;
    let next = load_level(&LoadLevelRequest { level: Level::Example }, &mut level_to_load);
    assert_eq!(level_to_load, Level::Example);
    assert_eq!(next, LevelState::Loading);
}

#[test]
fn the_example_level_queues_one_load_and_the_void_level_none() {
    let mut loading = LoadingAssets { handles: 0 };
    let next = on_level_change(&Level::Example, &mut loading);
    assert_eq!(loading.handles, 1);
    assert_eq!(next, LevelState::Loading);

    let mut nothing = LoadingAssets { handles: 0 };
    on_level_change(&Level::Void, &mut nothing);
    assert_eq!(nothing.handles, 0);
}

#[test]
fn loading_finishes_only_when_every_queued_handle_arrived() {
    let mut loading = LoadingAssets { handles: 2 };
    assert_eq!(check_asset_loading(&mut loading, 1), None);
    assert_eq!(loading.handles, 2);
    assert_eq!(check_asset_loading(&mut loading, 2), Some(LevelState::Postprocess));
    assert_eq!(loading.handles, 0);
}

#[test]
fn a_void_load_falls_straight_through() {
    let mut loading = LoadingAssets { handles: 0 };
    on_level_change(&Level::Void, &mut loading);
    assert_eq!(check_asset_loading(&mut loading, 0), Some(LevelState::Postprocess));
    assert_eq!(postprocess_assets(&Level::Void), (LevelState::Loaded, 0));
}

#[test]
fn postprocessing_touches_one_scene_per_queued_load() {
    assert_eq!(postprocess_assets(&Level::Example), (LevelState::Loaded, 1));
}

#[test]
fn a_finished_load_updates_the_current_level_and_spawns_the_scene() {
    let mut current = CurrentLevel::default();
    assert_eq!(current, CurrentLevel(Level::Void));
    assert!(level_loaded(&mut current, &Level::Example));
    assert_eq!(current, CurrentLevel(Level::Example));
    assert!(!level_loaded(&mut current, &Level::Void));
    assert_eq!(current, CurrentLevel(Level::Void));
}
