use image_ingest::storage::{
    full_path, is_plain, preview_path, StoredAsset, FULL_IMG_PATH, PREVIEW_IMG_PATH,
};

#[test]
fn roots_are_apart() {
    assert_eq!(FULL_IMG_PATH, "images/full/");
    assert_eq!(PREVIEW_IMG_PATH, "images/preview/");
}

#[test]
fn paths_are_root_and_name() {
    assert_eq!(full_path("a.png"), "images/full/a.png");
    assert_eq!(preview_path("a.png"), "images/preview/a.png");
    assert_eq!(full_path(""), "images/full/");
}

#[test]
fn asset_holds_name_and_both_paths() {
    let asset = StoredAsset::new("9b21.jpeg".to_string());
    assert_eq!(asset.filename, "9b21.jpeg");
    assert_eq!(asset.full_path, "images/full/9b21.jpeg");
    assert_eq!(asset.preview_path, "images/preview/9b21.jpeg");
    let copy = asset.duplicate();
    assert_eq!(copy.filename, asset.filename);
    assert_eq!(copy.full_path, asset.full_path);
    assert_eq!(copy.preview_path, asset.preview_path);
}

#[test]
fn plain_name_holds_no_separator() {
    assert!(is_plain(""));
    assert!(is_plain("png"));
    assert!(is_plain(".."));
    assert!(is_plain("x-odd.thing+xml"));
    assert!(!is_plain("/"));
    assert!(!is_plain("a/b"));
    assert!(!is_plain("../x"));
    assert!(!is_plain("a\\b"));
    assert!(!is_plain("é/"));
}
