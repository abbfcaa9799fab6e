use spellrs::parsed::{ParsedPath, WorkingDirs};
use spellrs::posix::Posix;

#[test]
fn parse_test_posix_parse() {
        let cases = get_parse_cases();

        for (i, (path, expected)) in cases.iter().enumerate() {
            let result = Posix.parse(path);
            assert_eq!(
                &result, expected,
                "\n\nPATH {i} FAILED\ninput:    {path}\nresult  : {:?}\nexpected: {:?}\n\n",
                result, expected
            );
        }
    }

#[test]
fn normalize_test_posix_normalize() {
        let cases = vec![
            ("/path/to/some/../folder", "/path/to/folder"),
            ("./relative/path/./to/file", "relative/path/to/file"),
            ("C:\\folder\\..\\file.txt", "C:\\folder\\..\\file.txt"),
            ("/another/path/./to/normalize", "/another/path/to/normalize"),
            ("../outside/relative/path", "../outside/relative/path"),
            ("/root//double/slash/", "/root/double/slash/"),
            ("folder/with/extra/../..", "folder"),
            ("/final/example//path", "/final/example/path"),
        ];

        for (i, (path, expected)) in cases.iter().enumerate() {
            let result = Posix.normalize(path);
            assert_eq!(
                &result, expected,
                "\n\nPATH {i} FAILED\ninput:    {path}\nresult  : {:?}\nexpected: {:?}\n\n",
                result, expected
            );
        }
    }

#[test]
fn relative_test_posix_relative() {
    let dirs = WorkingDirs::new("/home/roy/dev/rust/spellrs/spellrs_js".to_string());
        let cases: Vec<((&str, &str), String)> = vec![
            (("/", "/"), "".into()),
            (("/foo/bar", "/foo/bar"), "".into()),
            (("/foo", "/foo/bar"), "bar".into()),
            (("/foo/bar", "/foo"), "..".into()),
            (("/foo/bar", "/foo/baz"), "../baz".into()),
            (("/foo/bar/baz", "/foo/bar/qux"), "../qux".into()),
            (("/foo/bar/baz", "/foo/qux/quux"), "../../qux/quux".into()),
            (("/foo/bar", "/baz/qux"), "../../baz/qux".into()),
            (("/", "/foo"), "foo".into()),
            (("/foo", "/"), "..".into()),
            (("/", "/foo/bar"), "foo/bar".into()),
            (("/foo/bar", "/"), "../..".into()),
            (("/foo/bar/baz", "/foo/bar"), "..".into()),
            (("/foo/bar", "/foo/bar/baz/qux"), "baz/qux".into()),
            (("/foo/bar/..", "/foo/baz"), "baz".into()),
            (("/foo/bar/.", "/foo/bar/baz"), "baz".into()),
            (("/foo/../bar", "/bar/baz"), "baz".into()),
            (("/foo/./bar", "/foo/bar"), "".into()),
            (("/foo/bar/", "/foo/bar/baz/"), "baz".into()),
            (("/foo/bar/", "/foo/"), "..".into()),
            (("/foo", "/foo/bar/."), "bar".into()),
            (("/foo/.", "/foo/bar"), "bar".into()),
            (("/foo/..", "/bar"), "bar".into()),
            (("/foo/..", "/foo"), "foo".into()),
            (("/foo/bar", "/foo/bar/.."), "..".into()),
        ];

        for (i, ((from, to), expected)) in cases.iter().enumerate() {
            let result = Posix.relative(from, to, &dirs);
            assert_eq!(
                &result, expected,
                "\n\nCASE {i} FAILED\nFROM    : \"{from}\"\nTO      : \"{to}\"\nresult  : {:?}\nexpected: {:?}\n\n",
                result, expected
            );
        }
    }

#[test]
fn resolve_test_posix_resolve() {
    let dirs = WorkingDirs::new("/home/roy/dev/rust/spellrs/spellrs_js".to_string());
        let cases: Vec<(&[&str], &str)> = vec![
            (&[], "/home/roy/dev/rust/spellrs/spellrs_js"),
            (&["/absolute/path/one"], "/absolute/path/one"),
            (&["./relative/path/two"], "/home/roy/dev/rust/spellrs/spellrs_js/relative/path/two"),
            (&["../relative/parent/path/three"], "/home/roy/dev/rust/spellrs/relative/parent/path/three"),
            (&["/absolute/../path/four"], "/path/four"),
            (&["/absolute/path/five/.."], "/absolute/path"),
            (&["./relative/path/six/."], "/home/roy/dev/rust/spellrs/spellrs_js/relative/path/six"),
            (&["../../relative/parent/path/seven"], "/home/roy/dev/rust/relative/parent/path/seven"),
            (&["/absolute/path/eight/../../relative/path/nine"], "/absolute/relative/path/nine"),
            (&["/absolute/./path/ten"], "/absolute/path/ten"),
            (&["/absolute/path/eleven/../twelve"], "/absolute/path/twelve"),
            (&["relative/path/thirteen"], "/home/roy/dev/rust/spellrs/spellrs_js/relative/path/thirteen"),
            (&["relative/./path/fourteen"], "/home/roy/dev/rust/spellrs/spellrs_js/relative/path/fourteen"),
            (&["relative/../path/fifteen"], "/home/roy/dev/rust/spellrs/spellrs_js/path/fifteen"),
            (&["./"], "/home/roy/dev/rust/spellrs/spellrs_js"),
            (&["/"], "/"),
            (&["../"], "/home/roy/dev/rust/spellrs"),
            (&[""], "/home/roy/dev/rust/spellrs/spellrs_js"),
            (&["./relative", "../parent", "final/destination"], "/home/roy/dev/rust/spellrs/spellrs_js/parent/final/destination"),
            (&["/absolute", "./relative", "../parent", "final"], "/absolute/parent/final"),
            (&["/", "absolute/path", "to/resolve"], "/absolute/path/to/resolve"),
            (&["", "/absolute", "path/to/test"], "/absolute/path/to/test"),
            (&["relative", "/absolute", "./path/overwrite"], "/absolute/path/overwrite"),
            (&["../relative", "next", "/absolute/path"], "/absolute/path"),
            (&["../../relative", "./nested/dir", "final"], "/home/roy/dev/rust/relative/nested/dir/final"),
            (&["./", "../", "/absolute"], "/absolute"),
            (&["../", "./nested", "../../parent", "final"], "/home/roy/dev/rust/parent/final"),
            (&["/absolute", "/overwrite/absolute/path"], "/overwrite/absolute/path"),
            (&["/foo", "bar", "baz/asdf", "quux", ".."], "/foo/bar/baz/asdf")
        ];

        for (i, (paths, expected)) in cases.iter().enumerate() {
            let result = Posix.resolve(paths, &dirs);
            assert_eq!(
                &result, expected,
                "\n\nCASE {i} FAILED\nPATHS    : \"{:?}\"\nresult  : {:?}\nexpected: {:?}\n\n",
                paths, result, expected
            );
        }
    }

#[test]
fn posix_test_posix_normalize() {
        let cases = vec![
            ("/path/to/some/../folder", "/path/to/folder"),
            ("./relative/path/./to/file", "relative/path/to/file"),
            ("C:\\folder\\..\\file.txt", "C:\\folder\\..\\file.txt"),
            ("/another/path/./to/normalize", "/another/path/to/normalize"),
            ("../outside/relative/path", "../outside/relative/path"),
            ("/root//double/slash/", "/root/double/slash/"),
            ("folder/with/extra/../..", "folder"),
            ("/final/example//path", "/final/example/path"),
        ];

        for (i, (path, expected)) in cases.iter().enumerate() {
            let result = Posix.normalize(path);
            assert_eq!(
                &result, expected,
                "\n\nPATH {i} FAILED\ninput:    {path}\nresult  : {:?}\nexpected: {:?}\n\n",
                result, expected
            );
        }
    }

#[test]
fn posix_test_posix_parse() {
        let cases = get_parse_cases();

        for (i, (path, expected)) in cases.iter().enumerate() {
            let result = Posix.parse(path);
            assert_eq!(
                &result, expected,
                "\n\nPATH {i} FAILED\ninput:    {path}\nresult  : {:?}\nexpected: {:?}\n\n",
                result, expected
            );
        }
    }

#[test]
fn posix_test_posix_resolve() {
    let dirs = WorkingDirs::new("/home/roy/dev/rust/spellrs/spellrs_url".to_string());
        let cases: Vec<(&[&str], &str)> = vec![
            (&["/absolute/path/one"], "/absolute/path/one"),
            (&["./relative/path/two"], "/home/roy/dev/rust/spellrs/spellrs_url/relative/path/two"),
            (&["../relative/parent/path/three"], "/home/roy/dev/rust/spellrs/relative/parent/path/three"),
            (&["/absolute/../path/four"], "/path/four"),
            (&["/absolute/path/five/.."], "/absolute/path"),
            (&["./relative/path/six/."], "/home/roy/dev/rust/spellrs/spellrs_url/relative/path/six"),
            (&["../../relative/parent/path/seven"], "/home/roy/dev/rust/relative/parent/path/seven"),
            (&["/absolute/path/eight/../../relative/path/nine"], "/absolute/relative/path/nine"),
            (&["/absolute/./path/ten"], "/absolute/path/ten"),
            (&["/absolute/path/eleven/../twelve"], "/absolute/path/twelve"),
            (&["relative/path/thirteen"], "/home/roy/dev/rust/spellrs/spellrs_url/relative/path/thirteen"),
            (&["relative/./path/fourteen"], "/home/roy/dev/rust/spellrs/spellrs_url/relative/path/fourteen"),
            (&["relative/../path/fifteen"], "/home/roy/dev/rust/spellrs/spellrs_url/path/fifteen"),
            (&["./"], "/home/roy/dev/rust/spellrs/spellrs_url"),
            (&["/"], "/"),
            (&["../"], "/home/roy/dev/rust/spellrs"),
            (&[""], "/home/roy/dev/rust/spellrs/spellrs_url"),
            (&["./relative", "../parent", "final/destination"], "/home/roy/dev/rust/spellrs/spellrs_url/parent/final/destination"),
            (&["/absolute", "./relative", "../parent", "final"], "/absolute/parent/final"),
            (&["/", "absolute/path", "to/resolve"], "/absolute/path/to/resolve"),
            (&["", "/absolute", "path/to/test"], "/absolute/path/to/test"),
            (&["relative", "/absolute", "./path/overwrite"], "/absolute/path/overwrite"),
            (&["../relative", "next", "/absolute/path"], "/absolute/path"),
            (&["../../relative", "./nested/dir", "final"], "/home/roy/dev/rust/relative/nested/dir/final"),
            (&["./", "../", "/absolute"], "/absolute"),
            (&["../", "./nested", "../../parent", "final"], "/home/roy/dev/rust/parent/final"),
            (&["/absolute", "/overwrite/absolute/path"], "/overwrite/absolute/path"),
            (&["/foo", "bar", "baz/asdf", "quux", ".."], "/foo/bar/baz/asdf")
        ];

        for (i, (paths, expected)) in cases.iter().enumerate() {
            let result = Posix.resolve(paths, &dirs);
            assert_eq!(
                &result, expected,
                "\n\nCASE {i} FAILED\nPATHS    : \"{:?}\"\nresult  : {:?}\nexpected: {:?}\n\n",
                paths, result, expected
            );
        }
    }

#[test]
fn posix_test_posix_relative() {
    let dirs = WorkingDirs::new("/home/roy/dev/rust/spellrs/spellrs_url".to_string());
        let cases: Vec<((&str, &str), String)> = vec![
            (("/", "/"), "".into()),
            (("/foo/bar", "/foo/bar"), "".into()),
            (("/foo", "/foo/bar"), "bar".into()),
            (("/foo/bar", "/foo"), "..".into()),
            (("/foo/bar", "/foo/baz"), "../baz".into()),
            (("/foo/bar/baz", "/foo/bar/qux"), "../qux".into()),
            (("/foo/bar/baz", "/foo/qux/quux"), "../../qux/quux".into()),
            (("/foo/bar", "/baz/qux"), "../../baz/qux".into()),
            (("/", "/foo"), "foo".into()),
            (("/foo", "/"), "..".into()),
            (("/", "/foo/bar"), "foo/bar".into()),
            (("/foo/bar", "/"), "../..".into()),
            (("/foo/bar/baz", "/foo/bar"), "..".into()),
            (("/foo/bar", "/foo/bar/baz/qux"), "baz/qux".into()),
            (("/foo/bar/..", "/foo/baz"), "baz".into()),
            (("/foo/bar/.", "/foo/bar/baz"), "baz".into()),
            (("/foo/../bar", "/bar/baz"), "baz".into()),
            (("/foo/./bar", "/foo/bar"), "".into()),
            (("/foo/bar/", "/foo/bar/baz/"), "baz".into()),
            (("/foo/bar/", "/foo/"), "..".into()),
            (("/foo", "/foo/bar/."), "bar".into()),
            (("/foo/.", "/foo/bar"), "bar".into()),
            (("/foo/..", "/bar"), "bar".into()),
            (("/foo/..", "/foo"), "foo".into()),
            (("/foo/bar", "/foo/bar/.."), "..".into()),
        ];

        for (i, ((from, to), expected)) in cases.iter().enumerate() {
            let result = Posix.relative(from, to, &dirs);
            assert_eq!(
                &result, expected,
                "\n\nCASE {i} FAILED\nFROM    : \"{from}\"\nTO      : \"{to}\"\nresult  : {:?}\nexpected: {:?}\n\n",
                result, expected
            );
        }
    }

fn get_parse_cases() -> Vec<(String, ParsedPath)> {
        vec![
            (
                r"a/b/c".into(),
                ParsedPath {
                    root: r"".into(),
                    dir: r"a/b".into(),
                    base: r"c".into(),
                    ext: r"".into(),
                    name: r"c".into(),
                },
            ),
            (
                r"/a/b/c".into(),
                ParsedPath {
                    root: r"/".into(),
                    dir: r"/a/b".into(),
                    base: r"c".into(),
                    ext: r"".into(),
                    name: r"c".into(),
                },
            ),
            (
                r"a/b/../c".into(),
                ParsedPath {
                    root: r"".into(),
                    dir: r"a/b/..".into(),
                    base: r"c".into(),
                    ext: r"".into(),
                    name: r"c".into(),
                },
            ),
            (
                r"a/b/./c".into(),
                ParsedPath {
                    root: r"".into(),
                    dir: r"a/b/.".into(),
                    base: r"c".into(),
                    ext: r"".into(),
                    name: r"c".into(),
                },
            ),
            (
                r"/a/b/../../c".into(),
                ParsedPath {
                    root: r"/".into(),
                    dir: r"/a/b/../..".into(),
                    base: r"c".into(),
                    ext: r"".into(),
                    name: r"c".into(),
                },
            ),
            (
                r"/../a/b".into(),
                ParsedPath {
                    root: r"/".into(),
                    dir: r"/../a".into(),
                    base: r"b".into(),
                    ext: r"".into(),
                    name: r"b".into(),
                },
            ),
            (
                r"/a/b/../..".into(),
                ParsedPath {
                    root: r"/".into(),
                    dir: r"/a/b/..".into(),
                    base: r"..".into(),
                    ext: r"".into(),
                    name: r"..".into(),
                },
            ),
            (
                r"a/../../b".into(),
                ParsedPath {
                    root: r"".into(),
                    dir: r"a/../..".into(),
                    base: r"b".into(),
                    ext: r"".into(),
                    name: r"b".into(),
                },
            ),
            (
                r"/.".into(),
                ParsedPath {
                    root: r"/".into(),
                    dir: r"/".into(),
                    base: r".".into(),
                    ext: r"".into(),
                    name: r".".into(),
                },
            ),
            (
                r".".into(),
                ParsedPath {
                    root: r"".into(),
                    dir: r"".into(),
                    base: r".".into(),
                    ext: r"".into(),
                    name: r".".into(),
                },
            ),
            (
                r"./a/b".into(),
                ParsedPath {
                    root: r"".into(),
                    dir: r"./a".into(),
                    base: r"b".into(),
                    ext: r"".into(),
                    name: r"b".into(),
                },
            ),
            (
                r"a/b/".into(),
                ParsedPath {
                    root: r"".into(),
                    dir: r"a".into(),
                    base: r"b".into(),
                    ext: r"".into(),
                    name: r"b".into(),
                },
            ),
            (
                r"a/b//c".into(),
                ParsedPath {
                    root: r"".into(),
                    dir: r"a/b/".into(),
                    base: r"c".into(),
                    ext: r"".into(),
                    name: r"c".into(),
                },
            ),
            (
                r"/".into(),
                ParsedPath {
                    root: r"/".into(),
                    dir: r"/".into(),
                    base: r"".into(),
                    ext: r"".into(),
                    name: r"".into(),
                },
            ),
            (
                r"/a".into(),
                ParsedPath {
                    root: r"/".into(),
                    dir: r"/".into(),
                    base: r"a".into(),
                    ext: r"".into(),
                    name: r"a".into(),
                },
            ),
            (
                r"/a/b".into(),
                ParsedPath {
                    root: r"/".into(),
                    dir: r"/a".into(),
                    base: r"b".into(),
                    ext: r"".into(),
                    name: r"b".into(),
                },
            ),
            (
                r"/a/b/.".into(),
                ParsedPath {
                    root: r"/".into(),
                    dir: r"/a/b".into(),
                    base: r".".into(),
                    ext: r"".into(),
                    name: r".".into(),
                },
            ),
            (
                r"/a/b/..".into(),
                ParsedPath {
                    root: r"/".into(),
                    dir: r"/a/b".into(),
                    base: r"..".into(),
                    ext: r"".into(),
                    name: r"..".into(),
                },
            ),
            (
                r"a".into(),
                ParsedPath {
                    root: r"".into(),
                    dir: r"".into(),
                    base: r"a".into(),
                    ext: r"".into(),
                    name: r"a".into(),
                },
            ),
            (
                r"a/".into(),
                ParsedPath {
                    root: r"".into(),
                    dir: r"".into(),
                    base: r"a".into(),
                    ext: r"".into(),
                    name: r"a".into(),
                },
            ),
            (
                r"a/b/c".into(),
                ParsedPath {
                    root: r"".into(),
                    dir: r"a/b".into(),
                    base: r"c".into(),
                    ext: r"".into(),
                    name: r"c".into(),
                },
            ),
            (
                r"a/../b".into(),
                ParsedPath {
                    root: r"".into(),
                    dir: r"a/..".into(),
                    base: r"b".into(),
                    ext: r"".into(),
                    name: r"b".into(),
                },
            ),
            (
                r"../a/b".into(),
                ParsedPath {
                    root: r"".into(),
                    dir: r"../a".into(),
                    base: r"b".into(),
                    ext: r"".into(),
                    name: r"b".into(),
                },
            ),
            (
                r"./a/b".into(),
                ParsedPath {
                    root: r"".into(),
                    dir: r"./a".into(),
                    base: r"b".into(),
                    ext: r"".into(),
                    name: r"b".into(),
                },
            ),
            (
                r"a/b/../../c".into(),
                ParsedPath {
                    root: r"".into(),
                    dir: r"a/b/../..".into(),
                    base: r"c".into(),
                    ext: r"".into(),
                    name: r"c".into(),
                },
            ),
            (
                r"/a/b/c/file.txt".into(),
                ParsedPath {
                    root: r"/".into(),
                    dir: r"/a/b/c".into(),
                    base: r"file.txt".into(),
                    ext: r".txt".into(),
                    name: r"file".into(),
                },
            ),
            (
                r"a/b/c/file.txt".into(),
                ParsedPath {
                    root: r"".into(),
                    dir: r"a/b/c".into(),
                    base: r"file.txt".into(),
                    ext: r".txt".into(),
                    name: r"file".into(),
                },
            ),
            (
                r"a/b/../file.txt".into(),
                ParsedPath {
                    root: r"".into(),
                    dir: r"a/b/..".into(),
                    base: r"file.txt".into(),
                    ext: r".txt".into(),
                    name: r"file".into(),
                },
            ),
            (
                r"a/b/./file.txt".into(),
                ParsedPath {
                    root: r"".into(),
                    dir: r"a/b/.".into(),
                    base: r"file.txt".into(),
                    ext: r".txt".into(),
                    name: r"file".into(),
                },
            ),
            (
                r"/a/b/../../file.txt".into(),
                ParsedPath {
                    root: r"/".into(),
                    dir: r"/a/b/../..".into(),
                    base: r"file.txt".into(),
                    ext: r".txt".into(),
                    name: r"file".into(),
                },
            ),
            (
                r"./file.txt".into(),
                ParsedPath {
                    root: r"".into(),
                    dir: r".".into(),
                    base: r"file.txt".into(),
                    ext: r".txt".into(),
                    name: r"file".into(),
                },
            ),
            (
                r"../file.txt".into(),
                ParsedPath {
                    root: r"".into(),
                    dir: r"..".into(),
                    base: r"file.txt".into(),
                    ext: r".txt".into(),
                    name: r"file".into(),
                },
            ),
            (
                r"/file.txt".into(),
                ParsedPath {
                    root: r"/".into(),
                    dir: r"/".into(),
                    base: r"file.txt".into(),
                    ext: r".txt".into(),
                    name: r"file".into(),
                },
            ),
            (
                r"file.txt".into(),
                ParsedPath {
                    root: r"".into(),
                    dir: r"".into(),
                    base: r"file.txt".into(),
                    ext: r".txt".into(),
                    name: r"file".into(),
                },
            ),
            (
                r"/a/b/c/.hiddenfile".into(),
                ParsedPath {
                    root: r"/".into(),
                    dir: r"/a/b/c".into(),
                    base: r".hiddenfile".into(),
                    ext: r"".into(),
                    name: r".hiddenfile".into(),
                },
            ),
            (
                r"a/b/c/.hiddenfile".into(),
                ParsedPath {
                    root: r"".into(),
                    dir: r"a/b/c".into(),
                    base: r".hiddenfile".into(),
                    ext: r"".into(),
                    name: r".hiddenfile".into(),
                },
            ),
            (
                r"a/b/c/special-file.name".into(),
                ParsedPath {
                    root: r"".into(),
                    dir: r"a/b/c".into(),
                    base: r"special-file.name".into(),
                    ext: r".name".into(),
                    name: r"special-file".into(),
                },
            ),
            (
                r"/a/b/c/file.with.many.dots.ext".into(),
                ParsedPath {
                    root: r"/".into(),
                    dir: r"/a/b/c".into(),
                    base: r"file.with.many.dots.ext".into(),
                    ext: r".ext".into(),
                    name: r"file.with.many.dots".into(),
                },
            ),
            (
                r"file-no-extension".into(),
                ParsedPath {
                    root: r"".into(),
                    dir: r"".into(),
                    base: r"file-no-extension".into(),
                    ext: r"".into(),
                    name: r"file-no-extension".into(),
                },
            ),
            (
                r"/path/to/file-no-extension".into(),
                ParsedPath {
                    root: r"/".into(),
                    dir: r"/path/to".into(),
                    base: r"file-no-extension".into(),
                    ext: r"".into(),
                    name: r"file-no-extension".into(),
                },
            ),
            (
                r"a/b/..//c".into(),
                ParsedPath {
                    root: r"".into(),
                    dir: r"a/b/../".into(),
                    base: r"c".into(),
                    ext: r"".into(),
                    name: r"c".into(),
                },
            ),
            (
                r"a/./b/./c".into(),
                ParsedPath {
                    root: r"".into(),
                    dir: r"a/./b/.".into(),
                    base: r"c".into(),
                    ext: r"".into(),
                    name: r"c".into(),
                },
            ),
            (
                r"a b/c d/e f".into(),
                ParsedPath {
                    root: r"".into(),
                    dir: r"a b/c d".into(),
                    base: r"e f".into(),
                    ext: r"".into(),
                    name: r"e f".into(),
                },
            ),
            (
                r"/a/b%20c/d".into(),
                ParsedPath {
                    root: r"/".into(),
                    dir: r"/a/b%20c".into(),
                    base: r"d".into(),
                    ext: r"".into(),
                    name: r"d".into(),
                },
            ),
            (
                r"a/b\c".into(),
                ParsedPath {
                    root: r"".into(),
                    dir: r"a".into(),
                    base: r"b\c".into(),
                    ext: r"".into(),
                    name: r"b\c".into(),
                },
            ),
            (
                r"a/b/\0c".into(),
                ParsedPath {
                    root: r"".into(),
                    dir: r"a/b".into(),
                    base: r"\0c".into(),
                    ext: r"".into(),
                    name: r"\0c".into(),
                },
            ),
            (
                r"a/b/c/file with spaces.txt".into(),
                ParsedPath {
                    root: r"".into(),
                    dir: r"a/b/c".into(),
                    base: r"file with spaces.txt".into(),
                    ext: r".txt".into(),
                    name: r"file with spaces".into(),
                },
            ),
            (
                r"/path/to/special-file@.txt".into(),
                ParsedPath {
                    root: r"/".into(),
                    dir: r"/path/to".into(),
                    base: r"special-file@.txt".into(),
                    ext: r".txt".into(),
                    name: r"special-file@".into(),
                },
            ),
            (
                r"a/b/c/#file$.txt".into(),
                ParsedPath {
                    root: r"".into(),
                    dir: r"a/b/c".into(),
                    base: r"#file$.txt".into(),
                    ext: r".txt".into(),
                    name: r"#file$".into(),
                },
            ),
            (
                r"".into(),
                ParsedPath {
                    root: r"".into(),
                    dir: r"".into(),
                    base: r"".into(),
                    ext: r"".into(),
                    name: r"".into(),
                },
            ),
            (
                r".".into(),
                ParsedPath {
                    root: r"".into(),
                    dir: r"".into(),
                    base: r".".into(),
                    ext: r"".into(),
                    name: r".".into(),
                },
            ),
            (
                r"..".into(),
                ParsedPath {
                    root: r"".into(),
                    dir: r"".into(),
                    base: r"..".into(),
                    ext: r"".into(),
                    name: r"..".into(),
                },
            ),
            (
                r"./".into(),
                ParsedPath {
                    root: r"".into(),
                    dir: r"".into(),
                    base: r".".into(),
                    ext: r"".into(),
                    name: r".".into(),
                },
            ),
            (
                r"../".into(),
                ParsedPath {
                    root: r"".into(),
                    dir: r"".into(),
                    base: r"..".into(),
                    ext: r"".into(),
                    name: r"..".into(),
                },
            ),
            (
                r"./../".into(),
                ParsedPath {
                    root: r"".into(),
                    dir: r".".into(),
                    base: r"..".into(),
                    ext: r"".into(),
                    name: r"..".into(),
                },
            ),
            (
                r"/./".into(),
                ParsedPath {
                    root: r"/".into(),
                    dir: r"/".into(),
                    base: r".".into(),
                    ext: r"".into(),
                    name: r".".into(),
                },
            ),
            (
                r"a//b/c".into(),
                ParsedPath {
                    root: r"".into(),
                    dir: r"a//b".into(),
                    base: r"c".into(),
                    ext: r"".into(),
                    name: r"c".into(),
                },
            ),
            (
                r"a/.././../b".into(),
                ParsedPath {
                    root: r"".into(),
                    dir: r"a/.././..".into(),
                    base: r"b".into(),
                    ext: r"".into(),
                    name: r"b".into(),
                },
            ),
            (
                r"./a/b/c/file.txt".into(),
                ParsedPath {
                    root: r"".into(),
                    dir: r"./a/b/c".into(),
                    base: r"file.txt".into(),
                    ext: r".txt".into(),
                    name: r"file".into(),
                },
            ),
            (
                r"../a/b/c/file.txt".into(),
                ParsedPath {
                    root: r"".into(),
                    dir: r"../a/b/c".into(),
                    base: r"file.txt".into(),
                    ext: r".txt".into(),
                    name: r"file".into(),
                },
            ),
            (
                r"/absolute/path/file.js".into(),
                ParsedPath {
                    root: r"/".into(),
                    dir: r"/absolute/path".into(),
                    base: r"file.js".into(),
                    ext: r".js".into(),
                    name: r"file".into(),
                },
            ),
            (
                r"relative/path/file.js".into(),
                ParsedPath {
                    root: r"".into(),
                    dir: r"relative/path".into(),
                    base: r"file.js".into(),
                    ext: r".js".into(),
                    name: r"file".into(),
                },
            ),
            (
                r"/absolute/../relative/file.js".into(),
                ParsedPath {
                    root: r"/".into(),
                    dir: r"/absolute/../relative".into(),
                    base: r"file.js".into(),
                    ext: r".js".into(),
                    name: r"file".into(),
                },
            ),
            (
                r"relative/../absolute/file.js".into(),
                ParsedPath {
                    root: r"".into(),
                    dir: r"relative/../absolute".into(),
                    base: r"file.js".into(),
                    ext: r".js".into(),
                    name: r"file".into(),
                },
            ),
            (
                r"/a/b/c/file.json".into(),
                ParsedPath {
                    root: r"/".into(),
                    dir: r"/a/b/c".into(),
                    base: r"file.json".into(),
                    ext: r".json".into(),
                    name: r"file".into(),
                },
            ),
            (
                r"../a/b/c/file.json".into(),
                ParsedPath {
                    root: r"".into(),
                    dir: r"../a/b/c".into(),
                    base: r"file.json".into(),
                    ext: r".json".into(),
                    name: r"file".into(),
                },
            ),
            (
                r"C:/a/b/c/file.txt".into(),
                ParsedPath {
                    root: r"".into(),
                    dir: r"C:/a/b/c".into(),
                    base: r"file.txt".into(),
                    ext: r".txt".into(),
                    name: r"file".into(),
                },
            ),
            (
                r"C:/a/b/../file.txt".into(),
                ParsedPath {
                    root: r"".into(),
                    dir: r"C:/a/b/..".into(),
                    base: r"file.txt".into(),
                    ext: r".txt".into(),
                    name: r"file".into(),
                },
            ),
            (
                r"C:/a/b/./file.txt".into(),
                ParsedPath {
                    root: r"".into(),
                    dir: r"C:/a/b/.".into(),
                    base: r"file.txt".into(),
                    ext: r".txt".into(),
                    name: r"file".into(),
                },
            ),
            (
                r"C:/path/to/file-no-extension".into(),
                ParsedPath {
                    root: r"".into(),
                    dir: r"C:/path/to".into(),
                    base: r"file-no-extension".into(),
                    ext: r"".into(),
                    name: r"file-no-extension".into(),
                },
            ),
        ]
    }
