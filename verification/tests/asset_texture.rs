use rust_engine::config::{Config, ConfigContainer, Paths};
use rust_engine::texture::{TextureData, TextureFormat, TextureHandle, TextureManager};

fn test_config() -> Config {
    Config { paths: Some(Paths { texture_dir: Some("assets_root/".to_string()) }) }
}

fn test_data(width: u32, height: u32) -> TextureData {
    TextureData {
        width,
        height,
        format: TextureFormat::Rgba8,
        data: vec![0u8; (width as usize) * (height as usize) * 3],
    }
}

#[test]
fn texture_manager_load_and_get() {
    let config = ConfigContainer::new(test_config());
    let mut mgr = TextureManager::new(config.get_config().clone());

    let handle = mgr.load("assets/test.png", test_data(1024, 1024));
    assert!(handle.is_valid());
    assert_eq!(mgr.loaded_count(), 1);

    let data = mgr.get(&handle).expect("texture data should be retrievable");
    assert_eq!(data.width, 1024);
    assert_eq!(data.height, 1024);
    assert_eq!(data.format, TextureFormat::Rgba8);
    assert_eq!(data.data.len(), 1024 * 1024 * 3);
}

#[test]
fn texture_manager_duplicate_load_returns_same_handle() {
    let config = ConfigContainer::new(test_config());
    let mut mgr = TextureManager::new(config.get_config().clone());

    let h1 = mgr.load("assets/tex1.png", test_data(4, 4));
    let h2 = mgr.load("assets/tex1.png", test_data(4, 4));

    // Loading the same path again yields the cached handle
    assert_eq!(h1, h2);
    assert_eq!(mgr.loaded_count(), 1);
}

#[test]
fn texture_manager_unload() {
    let config = ConfigContainer::new(test_config());
    let mut mgr = TextureManager::new(config.get_config().clone());

    let handle = mgr.load("assets/tex1.png", test_data(4, 4));
    assert_eq!(mgr.loaded_count(), 1);

    mgr.unload(handle);
    assert_eq!(mgr.loaded_count(), 0);
    assert!(mgr.get(&handle).is_none());
}

#[test]
fn texture_handle_invalid() {
    let invalid = TextureHandle::invalid();
    assert!(!invalid.is_valid());
    assert_eq!(invalid.id(), 0);

    let config = ConfigContainer::new(test_config());
    let mgr = TextureManager::new(config.get_config().clone());
    assert!(mgr.get(&invalid).is_none());
}

#[test]
fn texture_manager_multiple_textures() {
    let config = ConfigContainer::new(test_config());
    let mut mgr = TextureManager::new(config.get_config().clone());

    let h1 = mgr.load("assets/tex1.png", test_data(2, 2));
    let h2 = mgr.load("assets/tex2.png", test_data(2, 2));
    let h3 = mgr.load("assets/tex3.png", test_data(2, 2));

    assert_ne!(h1, h2);
    assert_ne!(h2, h3);
    assert_ne!(h1, h3);
    assert_eq!(mgr.loaded_count(), 3);

    assert!(mgr.get(&h1).is_some());
    assert!(mgr.get(&h2).is_some());
    assert!(mgr.get(&h3).is_some());
}

#[test]
fn texture_path_prepends_configured_directory() {
    let config = ConfigContainer::new(test_config());
    let mgr = TextureManager::new(config.get_config().clone());

    let full = mgr.texture_path("assets/tex1.png");
    assert_eq!(full.as_deref(), Some("assets_root/assets/tex1.png"));
}

#[test]
fn texture_path_without_configured_directory() {
    let config = Config { paths: Some(Paths { texture_dir: None }) };
    let mgr = TextureManager::new(config);

    assert!(mgr.texture_path("assets/tex1.png").is_none());
}
