use bevy_in_app::asset_io::{AndroidAssetIo, AssetReaderError};

#[test]
fn new_keeps_root_path() {
    let io = AndroidAssetIo::new(b"assets");
    assert_eq!(io.root_path(), b"assets");
}

#[test]
fn read_meta_target_is_the_meta_path() {
    let io = AndroidAssetIo::new(b"assets");
    assert_eq!(io.read_meta_target(b"sprites/ball.png"), b"sprites/ball.png.meta".to_vec());
}

#[test]
fn opened_asset_is_the_answer() {
    let io = AndroidAssetIo::new(b"assets");
    assert_eq!(io.opened_or_not_found(b"a.png", Some(vec![1u8, 2, 3])), Ok(vec![1u8, 2, 3]));
}

#[test]
fn missing_asset_is_not_found_at_the_opened_path() {
    let io = AndroidAssetIo::new(b"assets");
    let answer: Result<Vec<u8>, AssetReaderError> = io.opened_or_not_found(b"a.png.meta", None);
    assert_eq!(answer, Err(AssetReaderError::NotFound(b"a.png.meta".to_vec())));
}

#[test]
fn read_directory_is_not_found() {
    let io = AndroidAssetIo::new(b"assets");
    assert_eq!(io.read_directory(b"sprites"), AssetReaderError::NotFound(b"sprites".to_vec()));
}

#[test]
fn is_directory_is_false() {
    let io = AndroidAssetIo::new(b"assets");
    assert_eq!(io.is_directory(b"sprites"), Ok(false));
    assert_eq!(io.is_directory(b"sprites/ball.png"), Ok(false));
}
