use bit_flipper::theme::{atlas_path, palette_path, texture_path};
use bit_flipper::theme::{ATLAS_FILE, PALETTE_FILE, TEXTURE_DIR};

#[test]
fn theme_files_live_in_the_theme_directory() {
    assert_eq!(texture_path(), "bit_flipper");
    assert_eq!(palette_path(), ("bit_flipper", "__palette__.png"));
    assert_eq!(atlas_path(), ("bit_flipper", "__texture_atlas__.png"));
    assert_eq!(TEXTURE_DIR, "bit_flipper");
    assert_eq!(PALETTE_FILE, "__palette__.png");
    assert_eq!(ATLAS_FILE, "__texture_atlas__.png");
}

#[test]
fn theme_paths_join_below_a_configuration_directory() {
    let config = std::path::Path::new("config");
    let (dir, file) = palette_path();
    assert_eq!(config.join(dir).join(file), config.join("bit_flipper/__palette__.png"));
    let (dir, file) = atlas_path();
    assert_eq!(config.join(dir).join(file), config.join("bit_flipper/__texture_atlas__.png"));
}
