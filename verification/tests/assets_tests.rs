use interstellar_triangulum::assets::{AssetError, AssetLoader, AssetStats};
use interstellar_triangulum::decimal::Decimal;

#[test]
fn test_asset_loader() {
    let mut loader = AssetLoader::new("/tmp/base");
    let result = loader.load_image("test.png", true);
    assert!(result.is_ok());

    let stats = loader.stats();
    assert_eq!(stats.images, 1);
    assert_eq!(stats.total, 1);
}

#[test]
fn test_load_nonexistent_image() {
    let mut loader = AssetLoader::new("/tmp/base");

    let result = loader.load_image("nonexistent.png", false);
    assert!(result.is_err());
    assert_eq!(result.err(), Some(AssetError::ImageNotFound));
    assert_eq!(loader.stats().total, 0);
}

#[test]
fn test_asset_caching() {
    let mut loader = AssetLoader::new("/tmp/base");

    // Load once
    loader.load_image("cached.png", true).unwrap();
    let stats1 = loader.stats();

    // Load again - should use cache
    loader.load_image("cached.png", true).unwrap();
    let stats2 = loader.stats();

    assert_eq!(stats1.total, stats2.total); // Should be same (cached)
    assert_eq!(stats2.total, 1);
    // a known path is answered from the cache, whatever is on disk by now
    assert!(loader.load_image("cached.png", false).is_ok());
}

#[test]
fn test_resolve_path_absolute() {
    let loader = AssetLoader::new("/base");
    let resolved = loader.resolve_path("/absolute/path.png");
    assert_eq!(resolved, "/absolute/path.png");
}

#[test]
fn test_resolve_path_relative() {
    let loader = AssetLoader::new("/base");
    let resolved = loader.resolve_path("relative/path.png");
    assert_eq!(resolved, "/base/relative/path.png");
}

#[test]
fn test_load_video() {
    let mut loader = AssetLoader::new("/tmp/base");
    let result = loader.load_video("test.mp4", true);
    assert!(result.is_ok());

    let video = result.unwrap();
    assert_eq!(video.width, 1920);
    assert_eq!(video.height, 1080);
    assert_eq!(video.fps, Decimal::from_units(30));
    assert_eq!(video.duration, Decimal::from_units(10));
    assert_eq!(video.path, "/tmp/base/test.mp4");
}

#[test]
fn test_load_font() {
    let mut loader = AssetLoader::new("/tmp/base");
    let result = loader.load_font("font.ttf", Some(b"fake font data".to_vec()));
    assert!(result.is_ok());
    assert_eq!(result.unwrap().data, b"fake font data".to_vec());

    let stats = loader.stats();
    assert_eq!(stats.fonts, 1);
    assert_eq!(stats.total, 1);
}

#[test]
fn test_clear_assets() {
    let mut loader = AssetLoader::new("/tmp/base");
    loader.load_image("test.png", true).unwrap();

    assert_eq!(loader.stats().total, 1);

    loader.clear();
    assert_eq!(loader.stats().total, 0);
    assert!(!loader.is_loaded("test.png"));
}

#[test]
fn test_asset_stats_display() {
    let stats = AssetStats {
        total: 10,
        images: 5,
        videos: 3,
        fonts: 2,
    };
    let display = stats.describe();
    assert!(display.contains("Total: 10"));
    assert!(display.contains("Images: 5"));
    assert!(display.contains("Videos: 3"));
    assert!(display.contains("Fonts: 2"));
    assert_eq!(display, "Total: 10, Images: 5, Videos: 3, Fonts: 2");
}

#[test]
fn resolving_paths() {
    assert_eq!(AssetLoader::new("").resolve_path("a.png"), "a.png");
    assert_eq!(AssetLoader::new("/base/").resolve_path("a.png"), "/base/a.png");
    assert_eq!(AssetLoader::new("base").resolve_path(""), "base/");
    assert_eq!(AssetLoader::new(".").resolve_path("x/y"), "./x/y");
    assert_eq!(AssetLoader::new("d\u{e9}p\u{f4}t").resolve_path("\u{e9}.png"), "d\u{e9}p\u{f4}t/\u{e9}.png");
    assert_eq!(AssetLoader::new("/base").base_path(), "/base");
}

#[test]
fn every_asset_error() {
    let mut loader = AssetLoader::new("/a");
    assert_eq!(loader.load_video("v.mp4", false).err(), Some(AssetError::VideoNotFound));
    assert_eq!(loader.load_font("f.ttf", None).err(), Some(AssetError::FontUnreadable));
    loader.load_image("x", true).unwrap();
    loader.load_video("y", true).unwrap();
    loader.load_font("z", Some(vec![1])).unwrap();
    assert_eq!(loader.load_video("x", true).err(), Some(AssetError::NotAVideo));
    assert_eq!(loader.load_font("x", Some(vec![])).err(), Some(AssetError::NotAFont));
    assert_eq!(loader.load_image("y", true).err(), Some(AssetError::NotAnImage));
    assert_eq!(loader.load_image("/a/z", false).err(), Some(AssetError::NotAnImage));
    let stats = loader.stats();
    assert_eq!(stats, AssetStats { total: 3, images: 1, videos: 1, fonts: 1 });
    assert!(loader.is_loaded("/a/x"));
    assert!(!loader.is_loaded("/b/x"));
    assert_eq!(AssetError::ImageNotFound.message("/a/q.png"), "Image file not found: /a/q.png");
    assert_eq!(AssetError::VideoNotFound.message("v"), "Video file not found: v");
    assert_eq!(AssetError::FontUnreadable.message("f"), "Failed to load font: f");
    assert_eq!(AssetError::NotAnImage.message("f"), "Asset is not an image");
    assert_eq!(AssetError::NotAVideo.message("f"), "Asset is not a video");
    assert_eq!(AssetError::NotAFont.message("f"), "Asset is not a font");
}
