use spellrs::file_url::{encode_whitespace, file_url_to_path, path_windows_drive_letter_to_upper, to_file_url, to_file_path_or_href};
use spellrs::file_url_builder::FileUrlBuilder;
use spellrs::node_path::NodePath;
use spellrs::parsed::WorkingDirs;
use spellrs::segments::PathStyle;
use spellrs::uri::decode_uri_component;
use spellrs::url::Url;
use spellrs::url_ops::{
    add_trailing_slash, basename_of_url_pathname, has_protocol, is_data_url, is_file_url,
    is_not_url_like, is_url_like, normalize_windows_url, to_url, url_basename, url_dirname, url_filename,
    url_parent, url_relative, url_remove_filename, StUrl,
};
use spellrs::windows::Windows;

fn href(s: &str) -> String {
    url::Url::parse(s).unwrap().as_str().to_string()
}

#[test]
fn test_is_url_like() {
    let cases = vec![
        ("samples/cities.txt", false),
        ("samples/cities.txt.gz", false),
        ("https://github.com/streetsidesoftware/cspell/raw/main/packages/cspell-io/samples/cities.txt", true),
        ("https://github.com/streetsidesoftware/cspell/raw/main/packages/cspell-io/samples/cities.txt.gz", true),
        ("vsls:/cspell.config.yaml", true),
        ("file:///", true),
        ("file:///samples/cities.txt", true),
        ("file:///samples/code/", true),
        ("stdin:sample.py", true),
        ("data:application/text", true),
        ("https://github.com/streetsidesoftware/samples/cities.txt", true),
        ("vs-code:///remote/file/sample.ts", true),
    ];

    for (file, expected) in cases {
        let result = is_url_like(file);
        assert_eq!(expected, result, "expected result {result} to be {expected}")
    }
}

#[test]
fn test_to_url() {
    let cases = vec![
        (
            "https://github.com/streetsidesoftware/cspell/README.md",
            None,
            "https://github.com/streetsidesoftware/cspell/README.md",
        ),
        (
            "README.md",
            Some("https://github.com/streetsidesoftware/cspell/".to_string()),
            "https://github.com/streetsidesoftware/cspell/README.md",
        ),
        ("vsls:/cspell.config.yaml", None, "vsls:/cspell.config.yaml"),
        ("stdin:sample.py", Some("file:///".to_string()), "stdin:sample.py"),
        ("vsls:/cspell.config.yaml", Some("file:///".to_string()), "vsls:/cspell.config.yaml"),
        ("**/*.json", Some("file:///User/test/project/".to_string()), "file:///User/test/project/**/*.json"),
        (
            "**/*{.json,.jsonc,.yml}",
            Some("file:///User/test/project/".to_string()),
            "file:///User/test/project/**/*%7B.json,.jsonc,.yml%7D",
        ),
    ];

    for (u, root, expected) in cases {
        let result = to_url(u, root.as_deref()).unwrap();
        assert_eq!(href(expected), result.as_str());
    }

    let parsed = Url::parse("https://github.com/streetsidesoftware/cspell/README.md").unwrap();
    assert_eq!(
        to_url(parsed.as_str(), None).unwrap().as_str(),
        href("https://github.com/streetsidesoftware/cspell/README.md")
    );
}

#[test]
fn test_basename_of_url_pathname() {
    let cases = vec![
        ("/", ""),
        ("samples/cities.txt", "cities.txt"),
        ("samples/cities.txt.gz", "cities.txt.gz"),
        ("samples/code/", "code/"),
        ("file://samples/code/", "code/"),
        ("https://github.com/streetsidesoftware/cspell/raw/main/packages/cspell-io/samples/cities.txt", "cities.txt"),
        ("https://github.com/streetsidesoftware/cspell/raw/main/packages/cspell-io/samples/cities.txt.gz", "cities.txt.gz"),
        ("https://github.com/streetsidesoftware/cspell/raw/main/packages/cspell-io/samples/code/", "code/"),
    ];

    for (file, expected) in cases {
        let result = basename_of_url_pathname(file);
        assert_eq!(expected, result);
    }
}

#[test]
fn test_url_parent() {
    let cases = vec![
        ("file:///", "file:///"),
        ("file:///samples/cities.txt", "file:///samples/"),
        ("file:///samples/code/", "file:///samples/"),
        (
            "https://github.com/streetsidesoftware/samples/cities.txt",
            "https://github.com/streetsidesoftware/samples/",
        ),
        ("stdin:/github.com/streetsidesoftware/samples/", "stdin:/github.com/streetsidesoftware/"),
        ("stdin:github.com/streetsidesoftware/samples/", "stdin:github.com/streetsidesoftware/"),
        ("vsls:/cspell.config.yaml", "vsls:/"),
        ("vsls:/path/file.txt", "vsls:/path/"),
    ];

    for (u, expected) in cases {
        let result = url_parent(u).unwrap().as_str().to_string();
        assert_eq!(href(expected), result)
    }
}

#[test]
fn test_add_trailing_slash() {
    let cases = vec![
        ("file:///", "file:///"),
        ("file:///samples/code/", "file:///samples/code/"),
        ("file:///samples/code", "file:///samples/code/"),
        ("stdin:sample", "stdin:sample"),
        ("stdin:/sample", "stdin:/sample/"),
        ("data:application/text", "data:application/text"),
        ("https://github.com/streetsidesoftware/samples", "https://github.com/streetsidesoftware/samples/"),
        ("vs-code:///remote/file/sample.ts", "vs-code:///remote/file/sample.ts/"),
    ];

    for (u, expected) in cases {
        let result = add_trailing_slash(to_url(u, None).unwrap());
        assert_eq!(href(expected), result.as_str());
    }
}

#[test]
fn test_url_relative() {
    let cases = vec![
        ("file:///", "file:///", ""),
        ("file:///samples/code/", "file:///samples/code/src/file.cpp", "src/file.cpp"),
        ("file:///samples/code/package.json", "file:///samples/code/src/file.cpp", "src/file.cpp"),
        ("file:///samples/code/", "file:///samples/code/", ""),
        ("file:///samples/code/", "file:///samples/code", "../code"),
        ("file:///samples/code", "file:///samples/code/", "code/"),
        ("stdin:sample", "stdin:sample", ""),
        ("stdin:/sample", "stdin:/sample", ""),
        ("data:application/text", "data:application/text", ""),
        (
            "https://github.com/streetsidesoftware/samples",
            "https://github.com/streetsidesoftware/samples",
            "",
        ),
        ("vs-code:///remote/file/sample.ts", "vs-code:///remote/file/sample.ts", ""),
    ];

    for (from, to, expected) in cases {
        assert_eq!(&url_relative(from, to).unwrap(), expected);

        let f = to_url(from, None).unwrap();
        let t = to_url(to, None).unwrap();
        let rel = url_relative(f.as_str(), t.as_str()).unwrap();
        assert_eq!(rel, expected);

        if f.path().starts_with('/') {
            let result = url::Url::parse(from).unwrap().join(&rel).unwrap();
            let expected = url::Url::parse(to).unwrap();
            assert_eq!(expected, result)
        }
    }
}

#[test]
fn test_url_filename() {
    let cases = vec![("file:///path/to/my/file.txt", "file.txt"), ("stdin:sample", "")];

    for (u, expected) in cases {
        let u = &Url::parse(u).unwrap();
        let result = url_filename(u);
        assert_eq!(expected, result);
    }
}

#[test]
fn test_url_remove_filename() {
    let path = "file:///path/to/my/file.txt";
    let expected = "file.txt";

    let u = Url::parse(path).unwrap();
    assert_eq!(url_filename(&u), expected);

    let result = url_remove_filename(&u).unwrap().join(url_filename(&u).as_str()).unwrap();

    assert_eq!(u.as_str(), result.as_str());
}

#[test]
fn test_normalize_windows_url() {
    let cases = vec![
        ("file:///path/to/my/file.txt", "file:///path/to/my/file.txt"),
        ("file:///C:/path/to/my/file.txt", "file:///C:/path/to/my/file.txt"),
        ("file:///C%3a/path/to/my/file.txt", "file:///C:/path/to/my/file.txt"),
        ("file:///d:/path/to/my/file.txt", "file:///D:/path/to/my/file.txt"),
        ("file:///d%3a/path/to/my/file.txt", "file:///D:/path/to/my/file.txt"),
        ("file:///d%3A/path/to/my/file.txt", "file:///D:/path/to/my/file.txt"),
    ];

    for (u, expected) in cases {
        assert_eq!(normalize_windows_url(u).unwrap().as_str(), expected);
    }
}

#[test]
fn test_posix_to_file_url() {
    assert_eq!(to_file_url("/home/foo").unwrap().as_str(), "file:///home/foo");
    assert_eq!(to_file_url("/home/ ").unwrap().as_str(), "file:///home/%20");
    assert_eq!(to_file_url("/home/%20").unwrap().as_str(), "file:///home/%2520");
    assert_eq!(to_file_url("/home\\foo").unwrap().as_str(), "file:///home%5Cfoo");
    assert!(to_file_url("foo").is_err());
    assert!(to_file_url("C:/").is_err());
    assert_eq!(to_file_url("//localhost/home/foo").unwrap().as_str(), "file:///localhost/home/foo");
    assert_eq!(to_file_url("//localhost/").unwrap().as_str(), "file:///localhost/");
    assert_eq!(to_file_url("//:/home/foo").unwrap().as_str(), "file:///:/home/foo");
}

#[test]
fn test_windows_to_file_url() {
    let w = Windows;
    assert_eq!(w.to_file_url("/home/foo").unwrap().as_str(), "file:///home/foo");
    assert_eq!(w.to_file_url("/home/ ").unwrap().as_str(), "file:///home/%20");
    assert_eq!(w.to_file_url("/home/%20").unwrap().as_str(), "file:///home/%2520");
    assert_eq!(w.to_file_url("/home\\foo").unwrap().as_str(), "file:///home/foo");
    assert!(w.to_file_url("foo").is_err());
    assert_eq!(w.to_file_url("C:/").unwrap().as_str(), "file:///C:/");
    assert_eq!(w.to_file_url("//localhost/home/foo").unwrap().as_str(), "file:///home/foo");
    assert_eq!(w.to_file_url("//127.0.0.1/home/foo").unwrap().as_str(), "file://127.0.0.1/home/foo");
    assert_eq!(w.to_file_url("//localhost/").unwrap().as_str(), "file:///");
    assert_eq!(w.to_file_url("//127.0.0.1/").unwrap().as_str(), "file://127.0.0.1/");
    assert!(w.to_file_url("//:/home/foo").is_err());
}

#[test]
fn test_builder() {
    let cwd = "/home/roy/dev/rust/spellrs/spellrs_url";
    let path = NodePath::new(PathStyle::Posix);
    let builder = FileUrlBuilder::new(None, None, PathStyle::Posix, WorkingDirs::new(cwd.to_string())).unwrap();
    let dirs = WorkingDirs::new(cwd.to_string());
    let expected = path
        .path_to_file_url("./", None, &dirs)
        .expect("to be a url")
        .as_str()
        .to_lowercase()
        + path.sep();
    let result = builder.cwd().as_str().to_lowercase();
    assert_eq!(expected, result);

    let u = StUrl::Url(builder.cwd().clone());
    let result = builder.url_to_filepath_or_href(&u).unwrap().to_lowercase();
    let expected = path.resolve(&["."], &dirs).to_lowercase() + path.sep();
    assert_eq!(expected, result);
}

#[test]
fn has_protocol_with_or_without_colon() {
    assert!(has_protocol("https://example.com", "https"));
    assert!(has_protocol("https://example.com", "https:"));
    assert!(!has_protocol("https://example.com", "http"));
    assert!(!has_protocol("invalid-url", "http"));
    assert!(!has_protocol("", "http"));
    assert!(has_protocol("custom-protocol://example", "custom-protocol"));
}

#[test]
fn data_and_file_urls() {
    assert!(is_data_url("data:application/text"));
    assert!(!is_data_url("file:///a"));
    assert!(is_file_url(&StUrl::Str("file:///a/b")));
    assert!(!is_file_url(&StUrl::String("https://x.org/".to_string())));
    assert!(is_not_url_like("samples/cities.txt"));
}

#[test]
fn file_url_to_path_decodes() {
    assert_eq!(file_url_to_path("file:///a%20b/c", false).unwrap(), "/a b/c");
    assert!(file_url_to_path("https://x.org/a", false).is_err());
    assert!(file_url_to_path("not a url", false).is_err());
    assert_eq!(file_url_to_path("file://server/share/x", true).unwrap(), "server:/share/x");
    assert_eq!(to_file_path_or_href(&StUrl::Str("file:///c:/x"), false), "/c:/x");
    assert_eq!(to_file_path_or_href(&StUrl::Str("https://x.org/a"), false), "https://x.org/a");
}

#[test]
fn drive_letter_upper_cased() {
    assert_eq!(path_windows_drive_letter_to_upper("c:\\foo"), "C:\\foo");
    assert_eq!(path_windows_drive_letter_to_upper("c:/foo"), "C:/foo");
    assert_eq!(path_windows_drive_letter_to_upper("/c:/foo"), "/c:/foo");
}

#[test]
fn decode_uri_component_cases() {
    assert_eq!(decode_uri_component("a%20b"), "a b");
    assert_eq!(decode_uri_component("%7B%7d"), "{}");
    assert_eq!(decode_uri_component("100%"), "100%");
    assert_eq!(decode_uri_component("%zz1"), "%zz1");
    assert_eq!(decode_uri_component("%4"), "%4");
    assert_eq!(decode_uri_component("%+1"), "%+1");
}

#[test]
fn url_dirname_matches_parent() {
    assert_eq!(url_dirname("file:///a/b/c.txt").unwrap().as_str(), "file:///a/b/");
    assert_eq!(url_dirname("data:text/plain,abc").unwrap().as_str(), "data:text/plain,abc");
}

#[test]
fn builder_converts_paths_and_urls() {
    let dirs = WorkingDirs::new("/home/user/project".to_string());
    let b = FileUrlBuilder::new(None, None, PathStyle::Posix, dirs).unwrap();
    assert_eq!(b.cwd().as_str(), "file:///home/user/project/");
    let u = b.to_file_url(&StUrl::Str("src/main.rs"), None).unwrap();
    assert_eq!(u.as_str(), "file:///home/user/project/src/main.rs");
    let d = b.to_fil_dir_url(&StUrl::Str("src"), None).unwrap();
    assert_eq!(d.as_str(), "file:///home/user/project/src/");
    let same = b.to_file_url(&StUrl::Str("https://example.com/a"), None).unwrap();
    assert_eq!(same.as_str(), "https://example.com/a");
    let rel = b.to_file_url(&StUrl::Str("x?.txt"), Some(&StUrl::Str("file:///tmp/"))).unwrap();
    assert_eq!(rel.as_str(), "file:///tmp/x%3F.txt");
    assert_eq!(b.root_file_url(None).unwrap().as_str(), "file:///");
    assert_eq!(b.encode_path_chars("a%b\\c"), "a%25b%5Cc");
    assert_eq!(b.normalize_filepath_for_url("a#b?c"), "a%23b%3Fc");
    assert!(b.is_absolute("/x") && b.is_absolute("vsls:/x") && !b.is_absolute("x"));
    let from = Url::parse("file:///home/user/project/").unwrap();
    let to = Url::parse("file:///home/user/project/src/a.rs").unwrap();
    assert_eq!(b.relative(&from, &to), "src/a.rs");
    let to_other = Url::parse("file:///home/other/").unwrap();
    assert_eq!(b.relative(&from, &to_other), "../../other/");
    assert_eq!(b.url_dirname(&StUrl::Str("file:///a/b/c.txt")).unwrap().as_str(), "file:///a/b/");
    assert_eq!(b.url_to_filepath_or_href(&StUrl::Str("file:///a/b%20c")).unwrap(), "/a/b c");
}

#[test]
fn builder_windows_rules() {
    let dirs = WorkingDirs::new("/home/user".to_string());
    let b = FileUrlBuilder::new(Some(true), None, PathStyle::Posix, dirs).unwrap();
    assert_eq!(b.normalize_filepath_for_url("c:\\dir\\file.txt"), "/C:/dir/file.txt");
    assert_eq!(b.encode_path_chars("a\\b"), "a\\b");
}

#[test]
fn test_encode_whitespace() {
    assert_eq!(encode_whitespace("foo"), "foo");
    assert_eq!(encode_whitespace("foo\tbar"), "foo%09bar");
    assert_eq!(encode_whitespace("foo\nbar"), "foo%0Abar");
    assert_eq!(encode_whitespace("foo\u{000B}bar"), "foo%0Bbar");
    assert_eq!(encode_whitespace("foo\u{000C}bar"), "foo%0Cbar");
    assert_eq!(encode_whitespace("foo\rbar"), "foo%0Dbar");
    assert_eq!(encode_whitespace("foo bar"), "foo%20bar");
    assert_eq!(encode_whitespace("foo\u{0009}bar"), "foo%09bar");
    assert_eq!(encode_whitespace("foo\u{000A}bar"), "foo%0Abar");
    assert_eq!(encode_whitespace("foo\u{000B}bar"), "foo%0Bbar");
    assert_eq!(encode_whitespace("foo\u{000C}bar"), "foo%0Cbar");
    assert_eq!(encode_whitespace("foo\u{000D}bar"), "foo%0Dbar");
    assert_eq!(encode_whitespace("foo\u{0020}bar"), "foo%20bar");
    assert_eq!(encode_whitespace("foo\u{FEFF}bar"), "foo\u{FEFF}bar");
}

#[test]
fn url_basename_of_paths() {
    assert_eq!(url_basename("https://example.com/some/path/").unwrap(), "path/");
    assert_eq!(url_basename("https://example.com/some/file.txt").unwrap(), "file.txt");
    assert!(url_basename("not a url").is_err());
}
