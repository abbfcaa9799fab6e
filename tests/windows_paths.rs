use spellrs::parsed::{ParsedPath, WorkingDirs};
use spellrs::windows::Windows;

#[test]
fn windows_test_windows_is_absolute() {
        assert!(Windows.is_absolute("C:\\foo\\bar"));
        assert!(!Windows.is_absolute("..\\baz"));
    }

#[test]
fn windows_test_windows_normalize() {
        let cases = vec![
            ("C:\\foo\\..\\bar", "C:\\bar"),
            ("/path/to/some/../folder", "\\path\\to\\folder"),
            ("./relative/path/./to/file", "relative\\path\\to\\file"),
            ("C:\\folder\\..\\file.txt", "C:\\file.txt"),
            ("/another/path/./to/normalize", "\\another\\path\\to\\normalize"),
            ("../outside/relative/path", "..\\outside\\relative\\path"),
            ("/root//double/slash/", "\\root\\double\\slash\\"),
            ("folder/with/extra/../..", "folder"),
            ("/final/example//path", "\\final\\example\\path"),
        ];

        for (i, (path, expected)) in cases.iter().enumerate() {
            let result = Windows.normalize(path);
            assert_eq!(
                &result, expected,
                "\n\nPATH {i} FAILED\ninput:    {path}\nresult  : {:?}\nexpected: {:?}\n\n",
                result, expected
            );
        }
    }

#[test]
fn windows_test_windows_parse() {
        let parsed = Windows.parse("\\\\server\\share");
        let expected = ParsedPath {
            base: "".into(),
            dir: "\\\\server\\share".into(),
            ext: "".into(),
            name: "".into(),
            root: "\\\\server\\share".into(),
        };

        assert_eq!(parsed, expected);
    }

#[test]
fn windows_test_windows_resolve() {
    let dirs = WorkingDirs::new("/home/roy/dev/rust/spellrs/spellrs_js".to_string());
        let test_cases: Vec<(&[&str], String)> = vec![
            (&["C:\\Users", "Documents", "file.txt"], String::from(r"C:\Users\Documents\file.txt")),
            (&["folder", "subfolder", "file.txt"], String::from(r"\home\roy\dev\rust\spellrs\spellrs_js\folder\subfolder\file.txt")),
            (&["C:\\", "folder", "file.txt"], String::from(r"C:\folder\file.txt")),
            (&["C:\\Users", "\\absolute\\path"], String::from(r"C:\absolute\path")),
            (&["\\\\server\\share", "folder", "file.txt"], String::from(r"\\server\share\folder\file.txt")),
            (&["folder", "..", "file.txt"], String::from(r"\home\roy\dev\rust\spellrs\spellrs_js\file.txt")),
            (&["C:\\folder\\subfolder", "..\\file.txt"], String::from(r"C:\folder\file.txt")),
            (&["C:\\Users", "C:\\Other\\Path"], String::from(r"C:\Other\Path")),
            (&["\\absolute\\path", "relative\\file"], String::from(r"\absolute\path\relative\file")),
        ];

        for (i, (paths, expected)) in test_cases.iter().enumerate() {
            let result = Windows.resolve(paths, &dirs);
            assert_eq!(
                &result, expected,
                "\n\nCASE {i} FAILED\nPATHS    : \"{:?}\"\nresult  : {:?}\nexpected: {:?}\n\n",
                paths, result, expected
            );
        }
    }

#[test]
fn windows_test_windows_relative() {
    let dirs = WorkingDirs::new("/home/roy/dev/rust/spellrs/spellrs_js".to_string());
        let cases: Vec<((&str, &str), String)> = vec![
            (("/", "/"), "".into()),
            (("/foo/bar", "/foo/bar"), "".into()),
            (("/foo", "/foo/bar"), "bar".into()),
            (("/foo/bar", "/foo"), "..".into()),
            (("/foo/bar", "/foo/baz"), "..\\baz".into()),
            (("/foo/bar/baz", "/foo/bar/qux"), r"..\qux".into()),
            (("/foo/bar/baz", "/foo/qux/quux"), r"..\..\qux\quux".into()),
            (("/foo/bar", "/baz/qux"), r"\baz\qux".into()),
            (("/", "/foo"), "foo".into()),
            (("/foo", "/"), "..".into()),
            (("/", "/foo/bar"), "foo\\bar".into()),
            (("/foo/bar", "/"), "..\\..".into()),
            (("/foo/bar/baz", "\\foo\\bar"), "..".into()),
            (("/foo/bar", "/foo/bar/baz/qux"), "baz\\qux".into()),
            (("/foo/bar/..", "/foo/baz"), "baz".into()),
            (("/foo/bar/.", "/foo/bar/baz"), "baz".into()),
            (("/foo/../bar", "/bar/baz"), "baz".into()),
            (("/foo/./bar", "/foo/bar"), "".into()),
            (("/foo/bar/", "/foo/bar/baz/"), "baz".into()),
            (("/foo/bar/", "/foo/"), "..".into()),
            (("/foo", "/foo/bar/."), "bar".into()),
            (("/foo/.", "/foo/bar"), "bar".into()),
            (("/foo/..", "/bar"), "bar".into()),
            (("/foo/..", "/foo"), "foo".into()),
            (("/foo/bar", "/foo/bar/.."), "..".into()),
        ];

        for (i, ((from, to), expected)) in cases.iter().enumerate() {
            let result = Windows.relative(from, to, &dirs);
            assert_eq!(
                &result, expected,
                "\n\nCASE {i} FAILED\nFROM    : \"{from}\"\nTO      : \"{to}\"\nresult  : {:?}\nexpected: {:?}\n\n",
                result, expected
            );
        }
    }

#[test]
fn is_absolute_test_windows_is_absolute() {
    assert!(Windows.is_absolute("C:\\foo\\bar"));
    assert!(!Windows.is_absolute("..\\baz"));
}

#[test]
fn normalize_test_windows_normalize() {
        let cases = vec![
            ("C:\\foo\\..\\bar", "C:\\bar"),
            ("/path/to/some/../folder", "\\path\\to\\folder"),
            ("./relative/path/./to/file", "relative\\path\\to\\file"),
            ("C:\\folder\\..\\file.txt", "C:\\file.txt"),
            ("/another/path/./to/normalize", "\\another\\path\\to\\normalize"),
            ("../outside/relative/path", "..\\outside\\relative\\path"),
            ("/root//double/slash/", "\\root\\double\\slash\\"),
            ("folder/with/extra/../..", "folder"),
            ("/final/example//path", "\\final\\example\\path"),
        ];

        for (i, (path, expected)) in cases.iter().enumerate() {
            let result = Windows.normalize(path);
            assert_eq!(
                &result, expected,
                "\n\nPATH {i} FAILED\ninput:    {path}\nresult  : {:?}\nexpected: {:?}\n\n",
                result, expected
            );
        }
    }

#[test]
fn parse_test_windows_parse() {
        let parsed = Windows.parse("\\\\server\\share");
        let expected = ParsedPath {
            base: "".into(),
            dir: "\\\\server\\share".into(),
            ext: "".into(),
            name: "".into(),
            root: "\\\\server\\share".into(),
        };

        assert_eq!(parsed, expected);
    }

#[test]
fn relative_test_windows_relative() {
    let dirs = WorkingDirs::new("/home/roy/dev/rust/spellrs/spellrs_js".to_string());
        let cases: Vec<((&str, &str), String)> = vec![
            (("/", "/"), "".into()),
            (("/foo/bar", "/foo/bar"), "".into()),
            (("/foo", "/foo/bar"), "bar".into()),
            (("/foo/bar", "/foo"), "..".into()),
            (("/foo/bar", "/foo/baz"), "..\\baz".into()),
            (("/foo/bar/baz", "/foo/bar/qux"), r"..\qux".into()),
            (("/foo/bar/baz", "/foo/qux/quux"), r"..\..\qux\quux".into()),
            (("/foo/bar", "/baz/qux"), r"\baz\qux".into()),
            (("/", "/foo"), "foo".into()),
            (("/foo", "/"), "..".into()),
            (("/", "/foo/bar"), "foo\\bar".into()),
            (("/foo/bar", "/"), "..\\..".into()),
            (("/foo/bar/baz", "\\foo\\bar"), "..".into()),
            (("/foo/bar", "/foo/bar/baz/qux"), "baz\\qux".into()),
            (("/foo/bar/..", "/foo/baz"), "baz".into()),
            (("/foo/bar/.", "/foo/bar/baz"), "baz".into()),
            (("/foo/../bar", "/bar/baz"), "baz".into()),
            (("/foo/./bar", "/foo/bar"), "".into()),
            (("/foo/bar/", "/foo/bar/baz/"), "baz".into()),
            (("/foo/bar/", "/foo/"), "..".into()),
            (("/foo", "/foo/bar/."), "bar".into()),
            (("/foo/.", "/foo/bar"), "bar".into()),
            (("/foo/..", "/bar"), "bar".into()),
            (("/foo/..", "/foo"), "foo".into()),
            (("/foo/bar", "/foo/bar/.."), "..".into()),
        ];

        for (i, ((from, to), expected)) in cases.iter().enumerate() {
            let result = Windows.relative(from, to, &dirs);
            assert_eq!(
                &result, expected,
                "\n\nCASE {i} FAILED\nFROM    : \"{from}\"\nTO      : \"{to}\"\nresult  : {:?}\nexpected: {:?}\n\n",
                result, expected
            );
        }
    }

#[test]
fn resolve_test_windows_resolve() {
    let dirs = WorkingDirs::new("/home/roy/dev/rust/spellrs/spellrs_js".to_string());
        let test_cases: Vec<(&[&str], String)> = vec![
            (&["C:\\Users", "Documents", "file.txt"], String::from(r"C:\Users\Documents\file.txt")),
            (&["folder", "subfolder", "file.txt"], String::from(r"\home\roy\dev\rust\spellrs\spellrs_js\folder\subfolder\file.txt")),
            (&["C:\\", "folder", "file.txt"], String::from(r"C:\folder\file.txt")),
            (&["C:\\Users", "\\absolute\\path"], String::from(r"C:\absolute\path")),
            (&["\\\\server\\share", "folder", "file.txt"], String::from(r"\\server\share\folder\file.txt")),
            (&["folder", "..", "file.txt"], String::from(r"\home\roy\dev\rust\spellrs\spellrs_js\file.txt")),
            (&["C:\\folder\\subfolder", "..\\file.txt"], String::from(r"C:\folder\file.txt")),
            (&["C:\\Users", "C:\\Other\\Path"], String::from(r"C:\Other\Path")),
            (&["\\absolute\\path", "relative\\file"], String::from(r"\absolute\path\relative\file")),
        ];

        for (i, (paths, expected)) in test_cases.iter().enumerate() {
            let result = Windows.resolve(paths, &dirs);
            assert_eq!(
                &result, expected,
                "\n\nCASE {i} FAILED\nPATHS    : \"{:?}\"\nresult  : {:?}\nexpected: {:?}\n\n",
                paths, result, expected
            );
        }
    }

