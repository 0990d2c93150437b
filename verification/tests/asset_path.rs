use bevy_in_app::asset_path::{get_meta_path, path_extension};
use std::path::{Path, PathBuf};

/// The meta path as the standard library's path functions build it.
fn std_meta_path(path: &str) -> String {
    let path = Path::new(path);
    let mut meta_path = path.to_path_buf();
    let mut extension = path.extension().expect("asset paths must have extensions").to_os_string();
    extension.push(".meta");
    meta_path.set_extension(extension);
    meta_path.to_str().unwrap().to_string()
}

fn ext(path: &str) -> Option<String> {
    path_extension(path.as_bytes()).map(|e| String::from_utf8(e).unwrap())
}

fn meta(path: &str) -> String {
    String::from_utf8(get_meta_path(path.as_bytes())).unwrap()
}

const SAMPLES: &[&str] = &[
    "a.png", "textures/a.png", "/abs/dir/model.gltf", "a/b.tar.gz", "a/b.txt/", "a/b.txt//",
    "a/b.txt/.", "a/b.txt/./", "./a.txt", "foo.", "..x", "a/...", "x/y.z/./.", "dir.d/file",
    "dir.d/file.ext", "a", ".hidden", "a/.hidden", "a/.hidden.txt", "..", "a/..", ".", "./", "/",
    "", "a/.", "a//b.c", "b.c//", ".a.b", "a/b/c.d.e.f", "a/./b.c", "//a.b", "a/b/../c.d", "../x.y/",
    "a.b/..", "./.", "x/.y.",
];

#[test]
fn extension_agrees_with_std_path() {
    for s in SAMPLES {
        let expected = Path::new(s).extension().map(|e| e.to_str().unwrap().to_string());
        assert_eq!(ext(s), expected, "extension of {:?}", s);
    }
}

#[test]
fn meta_path_agrees_with_std_path() {
    for s in SAMPLES {
        if Path::new(s).extension().is_some() {
            assert_eq!(meta(s), std_meta_path(s), "meta path of {:?}", s);
        }
    }
}

#[test]
fn extension_examples() {
    assert_eq!(ext("textures/player.png"), Some("png".to_string()));
    assert_eq!(ext("a/b.tar.gz"), Some("gz".to_string()));
    assert_eq!(ext("foo."), Some(String::new()));
    assert_eq!(ext("..x"), Some("x".to_string()));
    assert_eq!(ext(".hidden"), None);
    assert_eq!(ext("noext"), None);
    assert_eq!(ext("a/.."), None);
    assert_eq!(ext("dir.d/"), Some("d".to_string()));
    assert_eq!(ext(""), None);
}

#[test]
fn meta_path_appends_meta() {
    assert_eq!(meta("textures/player.png"), "textures/player.png.meta");
    assert_eq!(meta("a.b"), "a.b.meta");
    assert_eq!(meta("foo."), "foo..meta");
}

#[test]
fn meta_path_drops_trailing_separators_and_dots() {
    assert_eq!(meta("a/b.txt/"), "a/b.txt.meta");
    assert_eq!(meta("a/b.txt/./"), "a/b.txt.meta");
}

#[test]
fn meta_file_has_extension_meta() {
    let m = meta("models/ship.gltf");
    assert_eq!(ext(&m), Some("meta".to_string()));
    assert_eq!(PathBuf::from(&m).file_name().unwrap().to_str().unwrap(), "ship.gltf.meta");
}
