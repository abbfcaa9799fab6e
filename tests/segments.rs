use spellrs::segments::{normalize_string, PathStyle};

#[test]
fn test_normalize_string() {
    let sep = PathStyle::Posix;
    assert_eq!(normalize_string("", true, '/', sep), "");
    assert_eq!(normalize_string("", false, '/', sep), "");
    assert_eq!(normalize_string("a/../b", true, '/', sep), "b");
    assert_eq!(normalize_string("foo/bar/", true, '/', sep), "foo/bar");
    assert_eq!(normalize_string("/foo/bar", true, '/', sep), "foo/bar");
    assert_eq!(normalize_string("./foo/bar", true, '/', sep), "foo/bar");
    assert_eq!(normalize_string("../foo/bar/baz", true, '/', sep), "../foo/bar/baz");
    assert_eq!(normalize_string("/foo/../../bar", true, '/', sep), "../bar");
}

#[test]
fn normalize_string_windows_separators() {
    let style = PathStyle::Windows;
    assert_eq!(normalize_string("a\\b/../c", false, '\\', style), "a\\c");
    assert_eq!(normalize_string("..\\..\\x", false, '\\', style), "x");
    assert_eq!(normalize_string("..\\..\\x", true, '\\', style), "..\\..\\x");
    assert_eq!(normalize_string("a/.../b", true, '/', style), "a/.../b");
}
