use std::collections::HashSet;

use spellrs::file_url::{file_url_to_path, to_file_url};
use spellrs::filetypes::{find_matching_file_types, get_file_types_for_ext, is_binary_file, is_generated_file};
use spellrs::parsed::WorkingDirs;
use spellrs::posix::Posix;
use spellrs::url_ops::normalize_windows_url;
use spellrs::windows::Windows;

fn dirs() -> WorkingDirs {
    WorkingDirs::new("/home/user/project".to_string())
}

fn set_of(v: Vec<String>) -> HashSet<String> {
    v.into_iter().collect()
}

fn set(items: &[&str]) -> HashSet<String> {
    items.iter().map(|s| s.to_string()).collect()
}

#[test]
fn parse_of_resolve_rejoins_posix() {
    let d = dirs();
    for paths in [vec!["/foo/bar", "baz"], vec!["/a/./b/../c/d"], vec!["x", "/usr/local/lib"]] {
        let resolved = Posix.resolve(&paths, &d);
        let parts = Posix.parse(&resolved);
        assert_eq!(format!("{}/{}", parts.dir, parts.base), resolved);
    }
}

#[test]
fn parse_of_resolve_rejoins_windows() {
    let d = dirs();
    let resolved = Windows.resolve(&["C:\\foo", "bar"], &d);
    assert_eq!(resolved, "C:\\foo\\bar");
    let parts = Windows.parse(&resolved);
    assert_eq!(format!("{}\\{}", parts.dir, parts.base), resolved);
}

#[test]
fn normalize_is_idempotent() {
    for p in ["", ".", "./", "/", "a//b/../c/", "../../x/./y", "/../a/..", "foo/bar/.."] {
        let once = Posix.normalize(p);
        assert_eq!(Posix.normalize(&once), once);
    }
    for p in ["C:\\foo\\..\\bar", "/root//double/slash/", "..\\a\\..\\..", "C:"] {
        let once = Windows.normalize(p);
        assert_eq!(Windows.normalize(&once), once);
    }
}

#[test]
fn relative_outputs_are_relative() {
    let d = dirs();
    for (a, b) in [("/foo/bar", "/baz/qux"), ("/", "/x/y"), ("/a/b/c", "/a"), ("/a", "/a/b")] {
        let r = Posix.relative(a, b, &d);
        assert!(!Posix.is_absolute(&r), "{r}");
    }
    assert_eq!(Posix.relative("/foo/bar", "/baz/qux", &d), "../../baz/qux");
    let r = Windows.relative("C:\\a\\b", "C:\\c", &d);
    assert_eq!(r, "..\\..\\c");
    assert!(!Windows.is_absolute(&r));
}

#[test]
fn relative_to_itself_is_empty() {
    let d = dirs();
    assert_eq!(Posix.relative("/foo/bar", "/foo/bar", &d), "");
    assert_eq!(Posix.relative("a/./b", "a/b", &d), "");
    assert_eq!(Windows.relative("C:\\Foo", "c:\\foo", &d), "");
}

#[test]
fn file_url_round_trip() {
    for u in ["file:///home/user/file.txt", "file:///a/b/c/"] {
        let path = file_url_to_path(u, false).unwrap();
        let back = to_file_url(&path).unwrap();
        assert_eq!(back.as_str(), normalize_windows_url(u).unwrap().as_str());
    }
}

#[test]
fn file_types_for_extensions() {
    assert_eq!(set_of(get_file_types_for_ext(".jsonc")), set(&["jsonc", "json"]));
    assert_eq!(set_of(get_file_types_for_ext("TS")), set(&["typescript"]));
    assert!(get_file_types_for_ext("no-such-extension").is_empty());
}

#[test]
fn file_types_for_names() {
    assert_eq!(set_of(find_matching_file_types("Cargo.lock")), set(&["lock", "toml"]));
    assert_eq!(set_of(find_matching_file_types("Dockerfile.dev")), set(&["dockerfile"]));
    assert_eq!(set_of(find_matching_file_types("aws.Dockerfile")), set(&["dockerfile"]));
    assert_eq!(set_of(find_matching_file_types("dir/sub/Gemfile")), set(&["ruby"]));
    assert!(is_binary_file("picture.JPG"));
    assert!(is_generated_file(".cspellcache"));
    assert!(!is_generated_file("Gemfile"));
    assert!(find_matching_file_types("no_extension_here").is_empty());
}

#[test]
fn posix_resolve_example() {
    let d = dirs();
    assert_eq!(Posix.resolve(&["/foo", "bar", "baz/asdf", "quux", ".."], &d), "/foo/bar/baz/asdf");
    assert_eq!(Posix.resolve(&[], &d), "/home/user/project");
    assert_eq!(Posix.resolve(&["a", "", "b"], &d), "/home/user/project/a/b");
}

#[test]
fn windows_resolve_uses_drive_directory() {
    let mut d = dirs();
    d.per_drive.push(("D:".to_string(), "D:work".to_string()));
    assert_eq!(Windows.resolve(&["D:x"], &d), "D:work\\x");
    let mut rooted = dirs();
    rooted.per_drive.push(("D:".to_string(), "D:\\work".to_string()));
    assert_eq!(Windows.resolve(&["D:x"], &rooted), "D:\\work\\x");
    assert_eq!(Windows.resolve(&["C:\\a", "D:\\b", "c"], &d), "D:\\b\\c");
    assert_eq!(Windows.resolve(&["E:\\a", "\\\\srv\\share\\x"], &d), "\\\\srv\\share\\x");
}

#[test]
fn parse_edge_cases() {
    let p = Posix.parse("/home/user/.bashrc");
    assert_eq!((p.name.as_str(), p.ext.as_str()), (".bashrc", ""));
    let p = Posix.parse("archive.tar.gz");
    assert_eq!((p.dir.as_str(), p.name.as_str(), p.ext.as_str()), ("", "archive.tar", ".gz"));
    let p = Posix.parse("/");
    assert_eq!((p.root.as_str(), p.dir.as_str(), p.base.as_str()), ("/", "/", ""));
    let w = Windows.parse("C:\\dir\\file.txt");
    assert_eq!(
        (w.root.as_str(), w.dir.as_str(), w.base.as_str(), w.name.as_str(), w.ext.as_str()),
        ("C:\\", "C:\\dir", "file.txt", "file", ".txt")
    );
    let w = Windows.parse("C:\\dir\\");
    assert_eq!((w.dir.as_str(), w.base.as_str()), ("C:\\", "dir"));
}

#[test]
fn root_only_paths_parse_with_empty_base() {
    let d = dirs();
    let r = Posix.resolve(&["/"], &d);
    let p = Posix.parse(&r);
    assert_eq!((p.dir.as_str(), p.base.as_str()), ("/", ""));
    let p = Posix.parse("/\\");
    assert_eq!((p.dir.as_str(), p.base.as_str()), ("/", "\\"));
    let w = Windows.parse("\\");
    assert_eq!((w.dir.as_str(), w.base.as_str()), ("\\", ""));
    let w = Windows.parse("\\\\srv\\share\\");
    assert_eq!(w.base, "");
    let w = Windows.parse("C:\\a");
    assert_eq!((w.dir.as_str(), w.base.as_str()), ("C:\\", "a"));
}

#[test]
fn windows_normalize_keeps_one_trailing_separator() {
    assert_eq!(Windows.normalize("C:\\"), "C:\\");
    assert_eq!(Windows.normalize("C:\\foo\\"), "C:\\foo\\");
    assert_eq!(Windows.normalize("\\a\\..\\"), "\\");
    assert_eq!(Windows.normalize("C:\\x\\.."), "C:\\");
    assert_eq!(Windows.normalize(&Windows.normalize("C:\\x\\..")), "C:\\");
}

#[test]
fn lookups_ignore_directories_and_merge_keys() {
    assert_eq!(set_of(find_matching_file_types("path/Gemfile")), set(&["ruby"]));
    assert_eq!(set_of(find_matching_file_types("a/b/")), set_of(find_matching_file_types("b")));
    assert!(spellrs::filetypes::is_binary_ext(".EXE"));
    let ids = get_file_types_for_ext("tex");
    assert_eq!(set_of(ids.clone()), set(&["latex"]));
    assert_eq!(ids.len(), 1);
    assert_eq!(spellrs::filetypes::base_name("dir/sub/file.txt"), "file.txt");
    assert_eq!(spellrs::filetypes::base_name("dir/.."), "dir/..");
    assert_eq!(spellrs::filetypes::base_name("a/./"), "a");
}

#[test]
fn url_like_values() {
    use_url_like();
}

fn use_url_like() {
    let u = spellrs::url::Url::parse("https://example.com").unwrap();
    assert!(spellrs::url_ops::is_url_like(u));
    assert!(spellrs::url_ops::is_url_like("stdin:sample.py"));
    assert!(!spellrs::url_ops::is_url_like("samples/cities.txt"));
}
