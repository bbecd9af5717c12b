use mod_manager::errors::CoreError;
use mod_manager::storage::{Home, Storage, TargetOs};
use std::path::PathBuf;

#[test]
fn storage_ids_per_system() {
    assert_eq!(Storage::storage_id(TargetOs::Linux), "mod-manager");
    assert_eq!(Storage::storage_id(TargetOs::MacOs), "Mod Manager");
    assert_eq!(Storage::storage_id(TargetOs::Windows), "ModManager");
}

#[test]
fn linux_layout_uses_the_xdg_homes() {
    let layout = Storage::layout(TargetOs::Linux, true, true, true).unwrap();
    assert_eq!(layout.cache_dir.home, Home::Cache);
    assert_eq!(layout.cache_dir.relative, "mod-manager");
    assert_eq!(layout.config_file.home, Home::Config);
    assert_eq!(layout.config_file.relative, "mod-manager.toml");
    assert_eq!(layout.state_file.home, Home::State);
    assert_eq!(layout.state_file.relative, "mod-manager.ron");
}

#[test]
fn macos_layout_keeps_config_and_state_together() {
    let layout = Storage::layout(TargetOs::MacOs, true, true, false).unwrap();
    assert_eq!(layout.cache_dir.relative, "Mod Manager");
    assert_eq!(layout.config_file.home, Home::Config);
    assert_eq!(layout.config_file.relative, "Mod Manager/config.toml");
    assert_eq!(layout.state_file.home, Home::Config);
    assert_eq!(layout.state_file.relative, "Mod Manager/state.ron");
}

#[test]
fn windows_layout_caches_under_the_config_home() {
    let layout = Storage::layout(TargetOs::Windows, false, true, false).unwrap();
    assert_eq!(layout.cache_dir.home, Home::Config);
    assert_eq!(layout.cache_dir.relative, "ModManager/cache");
    assert_eq!(layout.config_file.relative, "ModManager/config.toml");
    assert_eq!(layout.state_file.relative, "ModManager/state.ron");
}

#[test]
fn no_config_home_is_an_error() {
    assert_eq!(Storage::layout(TargetOs::Linux, true, false, true), Err(CoreError::MissingConfigHome));
    let result = Storage::new(TargetOs::Linux, Some(PathBuf::from("/c")), None, Some(PathBuf::from("/s")));
    assert!(matches!(result, Err(CoreError::MissingConfigHome)));
}

#[test]
fn linux_storage_paths() {
    let storage = Storage::new(
        TargetOs::Linux,
        Some(PathBuf::from("/home/u/.cache")),
        Some(PathBuf::from("/home/u/.config")),
        Some(PathBuf::from("/home/u/.local/state")),
    )
    .unwrap();
    assert_eq!(storage.cache_dir, PathBuf::from("/home/u/.cache/mod-manager"));
    assert_eq!(storage.config_file, PathBuf::from("/home/u/.config/mod-manager.toml"));
    assert_eq!(storage.state_file, PathBuf::from("/home/u/.local/state/mod-manager.ron"));
}

#[test]
fn state_home_equal_to_config_home_is_not_separate() {
    let storage = Storage::new(
        TargetOs::MacOs,
        None,
        Some(PathBuf::from("/Users/u/Library/Application Support")),
        Some(PathBuf::from("/Users/u/Library/Application Support")),
    )
    .unwrap();
    assert_eq!(storage.cache_dir, PathBuf::from("/Users/u/Library/Application Support/Mod Manager/cache"));
    assert_eq!(
        storage.config_file,
        PathBuf::from("/Users/u/Library/Application Support/Mod Manager/config.toml")
    );
    assert_eq!(
        storage.state_file,
        PathBuf::from("/Users/u/Library/Application Support/Mod Manager/state.ron")
    );
}

#[test]
fn windows_cache_goes_under_the_application_directory_even_with_a_cache_home() {
    let layout = Storage::layout(TargetOs::Windows, true, true, false).unwrap();
    assert_eq!(layout.cache_dir.home, Home::Config);
    assert_eq!(layout.cache_dir.relative, "ModManager/cache");
}

#[test]
fn separate_state_home_holds_the_state_file() {
    let storage = Storage::new(
        TargetOs::Linux,
        None,
        Some(PathBuf::from("/h/.config")),
        Some(PathBuf::from("/h/.local/state")),
    )
    .unwrap();
    assert_eq!(storage.cache_dir, PathBuf::from("/h/.config/mod-manager/cache"));
    assert_eq!(storage.state_file, PathBuf::from("/h/.local/state/mod-manager.ron"));
}

#[test]
fn state_home_equal_by_components_is_not_separate() {
    let storage = Storage::new(
        TargetOs::Linux,
        None,
        Some(PathBuf::from("/h/.config")),
        Some(PathBuf::from("/h//.config/")),
    )
    .unwrap();
    assert_eq!(storage.state_file, PathBuf::from("/h/.config/mod-manager/state.ron"));
}
