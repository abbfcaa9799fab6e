use std::collections::HashSet;

use spellrs::definitions::definitions;
use spellrs::filetypes::{
    find_matching_file_types, get_file_types_for_ext, is_binary_ext, is_binary_file,
    is_binary_file_type, is_file_type_generated, is_generated_ext, is_generated_file,
};
use spellrs::js::JS;

#[test]
fn test_index_of() {
    let str = "i am a string".to_string();
    assert_eq!(7, str.index_of('s', None).unwrap());
    assert_eq!(2, str.index_of('a', None).unwrap());
    assert_eq!(5, str.index_of('a', Some(3)).unwrap());
}

#[test]
fn validate_get_languages_for_ext() {
    let cases = vec![
        ("ts", vec!["typescript"]),
        (".tex", vec!["latex"]),
        (".jpg", vec!["image"]),
        (".jsonc", vec!["jsonc", "json"]),
        ("tex", vec!["latex"]),
        ("hs", vec!["haskell"]),
        ("PNG", vec!["image"]),
    ];

    for (ext, expected) in cases {
        let result: HashSet<_> = get_file_types_for_ext(ext).into_iter().collect();
        let expected: HashSet<String> = expected.into_iter().map(String::from).collect();
        assert_eq!(result, expected);
    }
}

#[test]
fn validate_get_languages_for_basename() {
    let cases = vec![
        ("code.ts", vec!["typescript"]),
        ("base.r", vec!["r"]),
        ("base.R", vec!["r"]),
        ("doc.tex", vec!["latex"]),
        ("Dockerfile.bin", vec!["dockerfile"]),
        ("aws.Dockerfile", vec!["dockerfile"]),
        ("image.jpg", vec!["image"]),
        ("workspace.code-workspace", vec!["jsonc"]),
        (".code-workspace", vec!["jsonc"]),
        (".cspellcache", vec!["cache_files"]),
        ("Gemfile", vec!["ruby"]),
        ("path/Gemfile", vec!["ruby"]),
        ("Cargo.lock", vec!["lock", "toml"]),
        (".errors.log.2", vec!["log"]),
        ("my-cert.pem", vec!["pem"]),
        (
            "my-private-cert.private-key.pem",
            vec!["pem", "pem-private-key"],
        ),
        ("Dockerfile", vec!["dockerfile"]),
        ("Dockerfile.dev", vec!["dockerfile"]),
        ("docker.aws.compose.yaml", vec!["dockercompose"]),
        ("composer.lock", vec!["json", "lock"]),
        ("code.jl", vec!["julia"]),
        ("code.ts.map", vec!["json", "map"]),
    ];

    for (filename, expected) in cases {
        let result: HashSet<_> = find_matching_file_types(filename).into_iter().collect();
        let expected: HashSet<String> = expected.into_iter().map(String::from).collect();
        assert_eq!(result, expected);
    }
}

#[test]
fn all_extensions_start_with_a_dot() {
    for def in definitions().iter() {
        let exts_without_dot: Vec<&String> = def
            .extensions
            .iter()
            .filter(|&ext| ext.index_of('.', Some(0)).is_none())
            .collect();
        assert!(exts_without_dot.is_empty())
    }
}

#[test]
fn test_is_binary_ext() {
    let cases = vec![
        (".md", false),
        (".exe", true),
        (".obj", true),
        (".dll", true),
        (".gif", true),
        (".jpeg", true),
        (".jpg", true),
        (".txt", false),
        ("md", false),
        ("exe", true),
        ("obj", true),
        (".EXE", true),
        (".bin", true),
        ("dll", true),
        ("gif", true),
        ("txt", false),
        ("unknown", false),
    ];

    for (ext, expected) in cases {
        let result = is_binary_ext(ext);
        assert_eq!(expected, result);
    }
}

#[test]
fn test_is_binary_file() {
    let cases = vec![
        ("README.md", false),
        ("run.exe", true),
        ("lib.obj", true),
        ("lib.dll", true),
        ("lib.o", true),
        ("image.PNG", true),
        ("image.JPG", true),
        ("image.gif", true),
        ("picture.jpeg", true),
        ("picture.jpg", true),
        ("doc.txt", false),
        ("lock", false),
        ("Cargo.lock", false),
        ("Gemfile", false),
        (".cspellcache", false),
        ("my-video.webm", true),
        ("my-logo.svg", false),
    ];

    for (ext, expected) in cases {
        let result = is_binary_file(ext);
        assert_eq!(expected, result);
    }
}

#[test]
fn test_is_generated_ext() {
    let cases = vec![
        (".md", false),
        (".exe", true),
        (".obj", true),
        (".dll", true),
        (".gif", true),
        (".jpeg", true),
        (".jpg", true),
        (".txt", false),
        ("md", false),
        ("exe", true),
        (".EXE", true),
        (".bin", true),
        ("obj", true),
        ("dll", true),
        ("gif", true),
        ("txt", false),
        ("pdf", true),
        ("lock", true),
    ];

    for (ext, expected) in cases {
        let result = is_generated_ext(ext);
        assert!(expected == result, "{ext} -> {expected} != {result}");
    }
}

#[test]
fn test_is_generated_file() {
    let cases = vec![
        ("README.md", false),
        ("run.exe", true),
        ("lib.obj", true),
        ("lib.dll", true),
        ("lib.o", true),
        ("image.gif", true),
        ("picture.jpeg", true),
        ("picture.jpg", true),
        ("Cargo.lock", true),
        ("doc.txt", false),
        ("lock", false),
        ("Gemfile", false),
        (".cspellcache", true),
    ];

    for (filename, expected) in cases {
        let result = is_generated_file(filename);
        assert!(expected == result, "{filename} -> {expected} != {result}");
    }
}

#[test]
fn test_is_binary_file_type() {
    let cases = vec![
        (vec!["typescript".to_string()], false),
        (vec!["gzip".to_string()], true),
        (vec!["unknown".to_string()], false),
    ];
    for (file, expected) in cases {
        let _file = file[0].clone();
        let result = is_binary_file_type(file);
        assert!(expected == result, "{_file} -> {expected} != {result}");
    }
}

#[test]
fn test_js_slice() {
    let path = "i am a string";
    let result = path.slice(-3, -1);
    assert_eq!("in".to_string(), result);
}
