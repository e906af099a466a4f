use std::path::Path;
use wrangler::upload::names::filename_from_path;
use wrangler::upload::names::filestem_from_path;

#[test]
fn file_name_is_the_last_component() {
    assert_eq!(filename_from_path("dist/worker/index.js"), Some("index.js".to_string()));
    assert_eq!(filename_from_path("index.js"), Some("index.js".to_string()));
    assert_eq!(filename_from_path("/index.js"), Some("index.js".to_string()));
    assert_eq!(filename_from_path("./index.js"), Some("index.js".to_string()));
}

#[test]
fn file_name_skips_empty_and_dot_components() {
    assert_eq!(filename_from_path("dist/"), Some("dist".to_string()));
    assert_eq!(filename_from_path("dist//"), Some("dist".to_string()));
    assert_eq!(filename_from_path("dist/."), Some("dist".to_string()));
    assert_eq!(filename_from_path("dist/./"), Some("dist".to_string()));
    assert_eq!(filename_from_path("a/b/./."), Some("b".to_string()));
}

#[test]
fn file_name_is_absent_without_a_named_component() {
    assert_eq!(filename_from_path(""), None);
    assert_eq!(filename_from_path("/"), None);
    assert_eq!(filename_from_path("."), None);
    assert_eq!(filename_from_path("./"), None);
    assert_eq!(filename_from_path(".."), None);
    assert_eq!(filename_from_path("dist/.."), None);
    assert_eq!(filename_from_path("dist/../."), None);
}

#[test]
fn file_name_keeps_dots_inside_a_name() {
    assert_eq!(filename_from_path("..a"), Some("..a".to_string()));
    assert_eq!(filename_from_path("a/..."), Some("...".to_string()));
    assert_eq!(filename_from_path(".gitignore"), Some(".gitignore".to_string()));
}

#[test]
fn file_name_agrees_with_the_standard_library() {
    let paths = [
        "", "/", ".", "./", "..", "a", "a/", "a//", "a/.", "a/./", "a/..", "a/../.", "./a", "/a/b",
        "a/b/c.js", "..a", "a/...", ".hidden", "a/.hidden", "a/b.tar.gz", "héllo/wörld.js",
        "a/./b", "a//b", "./.", "../a", "a/b/../c",
    ];
    for path in paths.iter() {
        let expected = Path::new(path).file_name().map(|n| n.to_string_lossy().into_owned());
        assert_eq!(filename_from_path(path), expected, "file name of {:?}", path);
    }
}

#[test]
fn file_stem_drops_the_last_extension() {
    assert_eq!(filestem_from_path("dist/index.min.js"), Some("index.min".to_string()));
    assert_eq!(filestem_from_path("dist/index.js"), Some("index".to_string()));
    assert_eq!(filestem_from_path("dist/README"), Some("README".to_string()));
    assert_eq!(filestem_from_path("dist/name."), Some("name".to_string()));
}

#[test]
fn file_stem_keeps_a_leading_dot() {
    assert_eq!(filestem_from_path("dist/.hidden"), Some(".hidden".to_string()));
    assert_eq!(filestem_from_path("dist/.hidden.txt"), Some(".hidden".to_string()));
}

#[test]
fn file_stem_is_absent_without_a_file_name() {
    assert_eq!(filestem_from_path("dist/.."), None);
    assert_eq!(filestem_from_path(""), None);
    assert_eq!(filestem_from_path("/"), None);
}

#[test]
fn file_stem_agrees_with_the_standard_library() {
    let paths = [
        "", "/", ".", "..", "a", "a/", "a/b.js", "a/b.tar.gz", ".hidden", "a/.hidden",
        "a/.hidden.txt", "a/name.", "a/...", "a/..b", "a.b/c", "x/y.z/",
    ];
    for path in paths.iter() {
        let expected = Path::new(path).file_stem().map(|n| n.to_string_lossy().into_owned());
        assert_eq!(filestem_from_path(path), expected, "file stem of {:?}", path);
    }
}
